use omegabot::cocos2d::{CCApplication, SharedDirector};
use omegabot::gd::{GameManager, GameObject, LevelSettings, PlayLayer};
use omegabot::omegabot::{allow_death, NoClip};
use omegabot::player_object::{GameMode, PlayerObject};
use omegabot::utils::IsNull;

#[test]
fn player_field_addresses() {
    let p = PlayerObject::from_address(0x1000);
    assert_eq!(p.get_position(), (0x167C, 0x1680));
    assert_eq!(p.get_position_float(), (0x167C, 0x1680));
    assert_eq!(p.get_x_accel(), 0x1518);
    assert_eq!(p.get_y_accel(), 0x1628);
    assert_eq!(p.get_jump_accel(), 0x1520);
    assert_eq!(p.get_is_holding(), 0x1611);
    assert_eq!(p.get_has_just_held(), 0x1612);
    assert_eq!(p.get_is_holding2(), 0x1613);
    assert_eq!(p.get_has_just_held2(), 0x1614);
    assert_eq!(p.get_can_robot_jump(), 0x1624);
    assert_eq!(p.get_is_upside_down(), 0x163E);
    assert_eq!(p.get_is_on_ground(), 0x1640);
    assert_eq!(p.get_is_dashing(), 0x1641);
    assert_eq!(p.get_is_sliding(), 0x1660);
    assert_eq!(p.get_is_rising(), 0x1661);
    assert_eq!(p.get_black_orb(), 0x15FE);
    assert_eq!(p.get_unk662(), 0x1662);
    assert_eq!(p.get_unk630(), 0x1630);
    assert_eq!(p.get_unk631(), 0x1631);
    assert_eq!(p.get_vehicle_size(), 0x1644);
    assert_eq!(p.get_player_speed(), 0x1648);
    assert_eq!(p.get_rotation_x(), 0x1020);
    assert_eq!(p.get_rotation_y(), 0x1024);
    assert_eq!(p.game_mode_flag(0), 0x1638);
    assert_eq!(p.game_mode_flag(5), 0x163D);
    let addr: usize = p.into();
    assert_eq!(addr, 0x1000);
    assert_eq!(PlayerObject::from(0x20usize), PlayerObject::from_address(0x20));
}

#[test]
fn game_mode_flags() {
    let modes = [
        GameMode::Cube,
        GameMode::Ship,
        GameMode::UFO,
        GameMode::Ball,
        GameMode::Wave,
        GameMode::Robot,
        GameMode::Spider,
    ];
    for m in modes {
        assert_eq!(GameMode::from_flags(&m.flags()), m);
    }
    assert_eq!(GameMode::Cube.flags(), [false; 6]);
    assert_eq!(GameMode::Wave.flags(), [false, false, false, true, false, false]);
    assert_eq!(GameMode::from_flags(&[false, true, false, false, true, false]), GameMode::UFO);
}

#[test]
fn object_addresses() {
    let o = GameObject::from_address(0x100);
    assert_eq!(o.activated(), 0x3CA);
    assert_eq!(o.activated_p2(), 0x3CB);
    assert_eq!(GameObject::from(0x100usize), o);
    let s = LevelSettings::from_address(0x10);
    assert_eq!(s.is_2player_address(), 0x10A);
    let pl = PlayLayer::from_address(0x2000);
    assert_eq!(pl.is_paused(), 0x242B);
    assert_eq!(pl.time(), 0x2450);
    assert_eq!(pl.dead_address(), 0x239C);
    assert_eq!(pl.player1_address(), 0x2224);
    assert_eq!(pl.player2_address(), 0x2228);
    assert_eq!(pl.level_settings_address(), 0x222C);
    assert_eq!(pl.is_practice_mode_address(), 0x2495);
    let raw: usize = pl.into();
    assert_eq!(raw, 0x2000);
    assert_eq!(GameManager::from(0x500usize).play_layer_address(), 0x664);
    assert_eq!(SharedDirector::from(0x40usize).scheduler_address(), 0x88);
}

#[test]
fn is_dead_given_flags() {
    assert!(PlayLayer::is_dead_given(true, true, false));
    assert!(PlayLayer::is_dead_given(true, false, true));
    assert!(!PlayLayer::is_dead_given(true, false, false));
    assert!(!PlayLayer::is_dead_given(false, true, true));
}

#[test]
fn null_handles() {
    assert!(PlayerObject::from_address(0).is_null());
    assert!(!PlayerObject::from_address(8).is_null());
    assert!(CCApplication::from(0usize).is_null());
    assert!(GameManager::from(0usize).if_not_null(|g| g.address).is_none());
    assert_eq!(GameManager::from(7usize).if_not_null(|g| g.address), Some(7));
    let p = PlayerObject::from_address(9);
    assert_eq!(p.expect("present").address, 9);
}

#[test]
fn no_clip_protects_players() {
    let p1 = PlayerObject::from_address(1);
    let p2 = PlayerObject::from_address(2);
    assert!(allow_death(NoClip::Off, p1, p2, p1));
    assert!(!allow_death(NoClip::Both, p1, p2, p2));
    assert!(!allow_death(NoClip::Player1, p1, p2, p1));
    assert!(allow_death(NoClip::Player1, p1, p2, p2));
    assert!(!allow_death(NoClip::Player2, p1, p2, p2));
    assert!(allow_death(NoClip::Player2, p1, p2, p1));
}
