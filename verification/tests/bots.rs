use omegabot::full_replay::{FullReplay, PlayerData};
use omegabot::gd::GameObject;
use omegabot::player_object::{GameMode, PlayerObject};
use omegabot::practice_fix::{CheckpointData, PracticeFix};
use omegabot::replay::{Click, ClickType, Location, ReplayType};
use omegabot::replay_handler::{
    button_action, replay_file_kind, ButtonAction, ReplayHandler, ReplayHandlerState, ReplayKind,
    Reply, UnknownReplay, DEFAULT_FPS,
};
use omegabot::spam_bot::{SpamBot, SpamBotPlayer, SpamBotState, DEFAULT_Y_ACCURACY};

#[test]
fn defaults() {
    assert_eq!(DEFAULT_FPS, 60.0f32.to_bits());
    assert_eq!(DEFAULT_Y_ACCURACY, 40.0f32.to_bits());
    let bot = SpamBot::default();
    assert!(!bot.is_running());
    assert_eq!((bot.spam_press, bot.spam_release), (5, 5));
}

#[test]
fn spam_rhythm() {
    let mut bot = SpamBot::default();
    bot.spam_press = 2;
    bot.spam_release = 3;
    bot.start_spam(false);
    assert!(!bot.is_spamming());
    bot.start_spam(true);
    assert!(bot.is_spamming());
    let none = ClickType::NoClick;
    // Not held: a press once the release length (3) is reached.
    assert!(bot.update(false, false, false, none, none).is_empty());
    assert!(bot.update(false, false, false, none, none).is_empty());
    assert_eq!(bot.update(false, false, false, none, none), vec![ClickType::Player1Down]);
    // Held: a release once the press length (2) is reached.
    assert!(bot.update(false, true, false, none, none).is_empty());
    assert_eq!(bot.update(false, true, false, none, none), vec![ClickType::Player1Up]);
}

#[test]
fn spam_both_players_with_zero_release() {
    let mut bot = SpamBot::default();
    bot.spam_player = SpamBotPlayer::Both;
    bot.spam_press = 1;
    bot.spam_release = 0;
    bot.start_spam(true);
    let none = ClickType::NoClick;
    assert_eq!(
        bot.update(true, true, true, none, none),
        vec![ClickType::Player1Up, ClickType::Player2Up, ClickType::Player1Down, ClickType::Player2Down]
    );
    // Outside two-player levels only player 1 clicks.
    assert_eq!(
        bot.update(false, true, false, none, none),
        vec![ClickType::Player1Up, ClickType::Player1Down]
    );
}

#[test]
fn straight_fly_and_stop() {
    let mut bot = SpamBot::default();
    bot.straight_fly_player = SpamBotPlayer::Both;
    bot.start_straight_fly(None);
    assert!(!bot.is_running());
    bot.start_straight_fly(Some((10, 20)));
    assert!(bot.is_straight_flying());
    assert_eq!((bot.start_y_p1, bot.start_y_p2), (10, 20));
    assert_eq!(
        bot.update(true, false, false, ClickType::Player1Down, ClickType::Player1Up),
        vec![ClickType::Player1Down, ClickType::Player2Up]
    );
    assert_eq!(bot.stop(true, true, true, true), vec![ClickType::Player1Up, ClickType::Player2Up]);
    assert_eq!(bot.state, SpamBotState::Off);
    assert!(bot.stop(true, true, true, true).is_empty());
}

#[test]
fn stop_outside_two_player_releases_player1_only() {
    let mut bot = SpamBot::default();
    bot.spam_player = SpamBotPlayer::Player2;
    bot.start_spam(true);
    assert_eq!(bot.stop(true, false, true, true), vec![ClickType::Player1Up]);
    bot.start_spam(true);
    assert!(bot.stop(false, true, true, true).is_empty());
}

#[test]
fn handler_state_machine() {
    let mut h = ReplayHandler::default();
    assert_eq!(h.get_state(), ReplayHandlerState::Idle);
    assert_eq!(h.get_fps(), DEFAULT_FPS);
    match h.append() {
        Reply::Error(msg) => assert_eq!(msg, "Not playing"),
        Reply::Received => panic!("append must be refused when idle"),
    }
    h.start_playback();
    assert!(matches!(h.append(), Reply::Received));
    assert_eq!(h.get_state(), ReplayHandlerState::Recording);
    h.stop_recording();
    assert_eq!(h.get_state(), ReplayHandlerState::Idle);
    h.set_accuracy_fix(true);
    h.start_recording();
    assert!(matches!(h.replay, UnknownReplay::Full(_)));
    h.set_accuracy_fix(false);
    h.set_replay_type(ReplayType::XPos);
    h.start_recording();
    match &h.replay {
        UnknownReplay::Standard(r) => assert_eq!(r.get_type(), ReplayType::XPos),
        UnknownReplay::Full(_) => panic!("expected a click replay"),
    }
    h.stop_playback();
    assert_eq!(h.get_state(), ReplayHandlerState::Idle);
}

#[test]
fn handler_records_and_plays_back() {
    let mut h = ReplayHandler::default();
    let fps120 = 120.0f32.to_bits();
    h.start_recording();
    h.on_click(false, false, true, true, 0, 10);
    h.change_fps(fps120, 15, 0, 0);
    assert_eq!(h.get_frame_offset(), 15);
    assert_eq!(h.get_fps(), fps120);
    h.on_click(true, true, false, true, 0, 20);
    h.on_click(true, false, false, false, 0, 25);
    h.stop_recording();
    assert_eq!(h.get_fps(), fps120);
    match &h.replay {
        UnknownReplay::Standard(r) => assert_eq!(
            r.clicks,
            vec![
                Click { location: Location::Frame(10), click_type: ClickType::Player1Down },
                Click { location: Location::Frame(15), click_type: ClickType::FpsChange(fps120) },
                Click { location: Location::Frame(20), click_type: ClickType::Player2Up },
                Click { location: Location::Frame(25), click_type: ClickType::Player2Up },
            ]
        ),
        UnknownReplay::Full(_) => panic!("expected a click replay"),
    }
    h.start_playback();
    h.on_reset_level(true, false, false, false);
    h.reset_replay(0, 0);
    assert_eq!(h.get_fps(), DEFAULT_FPS);
    assert!(h.on_update(false, 0, 100).is_empty());
    let due = h.on_update(true, 0, 15);
    assert_eq!(due.len(), 2);
    assert_eq!(h.get_fps(), fps120);
    h.on_fps_change(14, 99);
    assert_eq!((h.get_frame_offset(), h.get_time_offset()), (14, 99));
    h.set_frame(3, 4);
    assert_eq!((h.get_frame_offset(), h.get_time_offset()), (3, 4));
}

#[test]
fn handler_toggles_bots() {
    let mut h = ReplayHandler::default();
    assert!(h.toggle_spam(true, false, false, false).is_empty());
    assert!(h.get_spam_bot().is_spamming());
    assert_eq!(h.toggle_spam(true, false, true, false), vec![ClickType::Player1Up]);
    assert!(!h.spam_bot.is_running());
    assert!(h.toggle_straight_fly(true, false, false, false, Some((1, 2))).is_empty());
    assert!(h.spam_bot.is_straight_flying());
    assert!(h.toggle_straight_fly(true, false, false, false, None).is_empty());
    assert!(!h.spam_bot.is_running());
    h.get_spam_bot().start_spam(true);
    h.on_quit(true, false, false, false);
    assert!(!h.spam_bot.is_running());
}

#[test]
fn button_actions() {
    assert_eq!(button_action(ClickType::NoClick, false), None);
    assert_eq!(button_action(ClickType::FpsChange(1), true), None);
    assert_eq!(
        button_action(ClickType::Player1Down, false),
        Some(ButtonAction { press: true, button: true })
    );
    assert_eq!(
        button_action(ClickType::Player2Up, false),
        Some(ButtonAction { press: false, button: false })
    );
    assert_eq!(
        button_action(ClickType::Player2Down, true),
        Some(ButtonAction { press: true, button: true })
    );
}

#[test]
fn replay_file_framing() {
    let h = ReplayHandler::default();
    let data = h.replay_file_data(&vec![7, 8, 9]);
    assert_eq!(data, vec![0, 7, 8, 9]);
    assert_eq!(replay_file_kind(&data), ReplayKind::Standard);
    assert_eq!(replay_file_kind(&vec![1]), ReplayKind::Full);
    let mut full = ReplayHandler::default();
    full.set_accuracy_fix(true);
    full.start_recording();
    assert_eq!(full.replay_file_data(&vec![]), vec![1]);
}

#[test]
fn player_data_bits() {
    let d = PlayerData::create(PlayerObject::from_address(0), vec![true, false, true]);
    assert_eq!(d.number_of_clicks, 3);
    assert_eq!(d.clicks, 0b101);
    let e = PlayerData::create(PlayerObject::from_address(0), vec![true; 8]);
    assert_eq!(e.clicks, 0xFF);
    let z = PlayerData::create(PlayerObject::from_address(0), vec![]);
    assert_eq!((z.number_of_clicks, z.clicks), (0, 0));
}

#[test]
fn full_replay_basics() {
    let mut r = FullReplay::new(30.0f32.to_bits(), ReplayType::XPos);
    assert_eq!(r.get_type(), ReplayType::XPos);
    assert_eq!(r.get_current_fps(), 30.0f32.to_bits());
    r.finalise();
    assert!(r.frames.is_empty());
}

fn data(holding: bool) -> CheckpointData {
    CheckpointData {
        x_accel: 0,
        y_accel: 0,
        jump_accel: 0,
        is_holding: holding,
        has_just_held: false,
        is_holding2: false,
        has_just_held2: false,
        can_robot_jump: false,
        is_upside_down: false,
        is_on_ground: true,
        is_dashing: false,
        is_sliding: false,
        is_rising: false,
        black_orb: false,
        unk662: false,
        unk630: false,
        unk631: false,
        vehicle_size: 0,
        player_speed: 0,
        rotation_x: 0,
        rotation_y: 0,
        x_pos: 0,
        y_pos: 0,
        game_mode: GameMode::Cube,
    }
}

#[test]
fn practice_checkpoints_keep_used_objects() {
    let mut pf = PracticeFix::default();
    pf.add_activated_object(GameObject::from_address(1), false);
    pf.add_checkpoint(data(false), data(false), 10, 0, 0);
    pf.add_activated_object(GameObject::from_address(2), false);
    pf.add_activated_object(GameObject::from_address(3), true);
    pf.add_checkpoint(data(true), data(false), 20, 0, 5);
    pf.add_activated_object(GameObject::from_address(4), false);
    let restored = pf.on_reset(true).unwrap();
    assert_eq!(restored.0.time, 20);
    assert!(restored.1);
    assert_eq!(pf.activated_objects.len(), 2);
    assert_eq!(pf.activated_objects_p2.len(), 1);
    pf.remove_checkpoint();
    assert_eq!(pf.checkpoints.len(), 1);
    assert_eq!(pf.activated_objects, vec![GameObject::from_address(1)]);
    assert!(pf.activated_objects_p2.is_empty());
    pf.set_active(false);
    assert_eq!(pf.apply_checkpoint().unwrap(), (pf.checkpoints[0], false));
    assert!(pf.on_reset(false).is_none());
    assert!(pf.checkpoints.is_empty());
    pf.add_activated_object(GameObject::from_address(9), true);
    pf.remove_checkpoint();
    assert!(pf.activated_objects_p2.is_empty());
    pf.add_activated_object(GameObject::from_address(9), false);
    pf.clear_checkpoints();
    assert!(pf.activated_objects.is_empty());
}

#[test]
fn checkpoint_restore_clicks() {
    let mut pf = PracticeFix::default();
    pf.add_checkpoint(data(true), data(false), 0, 0, 0);
    let cp = pf.apply_checkpoint().unwrap().0;
    assert_eq!(data(true).hold_change(false), 1);
    assert_eq!(data(false).hold_change(true), 2);
    assert_eq!(data(true).hold_change(true), 0);
    assert!(cp.restore_clicks(false, true, true, true).is_empty());
    assert_eq!(
        cp.restore_clicks(false, true, true, false),
        vec![ClickType::Player1Up, ClickType::Player2Down]
    );
    assert_eq!(cp.restore_clicks(true, true, false, false), vec![]);
    pf.set_auto_hold(false);
    assert!(!pf.auto_hold);
}

#[test]
fn checkpoint_then_restart_keeps_every_used_object() {
    let mut pf = PracticeFix::default();
    pf.add_activated_object(GameObject::from_address(1), false);
    pf.add_activated_object(GameObject::from_address(2), true);
    pf.add_activated_object(GameObject::from_address(3), false);
    pf.add_checkpoint(data(false), data(true), 7, 1, 2);
    let (cp, active) = pf.on_reset(true).unwrap();
    assert!(active);
    assert_eq!((cp.time, cp.time_offset, cp.frame_offset), (7, 1, 2));
    assert_eq!(cp.number_of_activated_objects, 2);
    assert_eq!(cp.number_of_activated_objects_p2, 1);
    assert_eq!(pf.activated_objects, vec![GameObject::from_address(1), GameObject::from_address(3)]);
    assert_eq!(pf.activated_objects_p2, vec![GameObject::from_address(2)]);
}

#[test]
fn full_recording_starts_at_frame_zero_and_keeps_its_buttons() {
    let mut h = ReplayHandler::default();
    h.set_accuracy_fix(true);
    h.start_recording();
    match &mut h.replay {
        UnknownReplay::Full(r) => {
            assert_eq!(r.current_frame, 0);
            assert!(r.current_clicks.0.is_empty() && r.current_clicks.1.is_empty());
            r.current_frame = 7;
            r.current_clicks.0.push(true);
        }
        UnknownReplay::Standard(_) => panic!("expected a full replay"),
    }
    h.stop_recording();
    match &h.replay {
        UnknownReplay::Full(r) => {
            assert_eq!(r.current_frame, 7);
            assert_eq!(r.current_clicks.0, vec![true]);
        }
        UnknownReplay::Standard(_) => panic!("expected a full replay"),
    }
}
