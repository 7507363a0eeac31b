use omegabot::c_api::{CClick, CClickType, CLocation, CReplayType};
use omegabot::hack_handler::HackName;
use omegabot::omegabot::NoClip;
use omegabot::replay::{Click, ClickType, Location, ReplayType};

#[test]
fn replay_type_round_trip() {
    for t in [ReplayType::XPos, ReplayType::Frame] {
        let c: CReplayType = t.into();
        let back: ReplayType = c.into();
        assert_eq!(back, t);
    }
    assert_eq!(CReplayType::from(ReplayType::Frame), CReplayType::Frame);
}

#[test]
fn location_round_trip() {
    let c = CLocation::from(Location::XPos(77));
    assert_eq!(c, CLocation { location_type: CReplayType::XPos, location: 77 });
    assert_eq!(Location::from(c), Location::XPos(77));
    let f = CLocation { location_type: CReplayType::Frame, location: 5 };
    assert_eq!(Location::from(f), Location::Frame(5));
}

#[test]
fn click_round_trip() {
    let fps = 144.0f32.to_bits();
    let change = Click { location: Location::Frame(9), click_type: ClickType::FpsChange(fps) };
    let c = CClick::from(change);
    assert_eq!(c.click_type, CClickType::FpsChange);
    assert_eq!(c.fps, fps);
    assert_eq!(Click::from(c), change);
    let press = Click { location: Location::XPos(3), click_type: ClickType::Player2Down };
    let c = CClick::from(press);
    assert_eq!(
        c,
        CClick {
            location: CLocation { location_type: CReplayType::XPos, location: 3 },
            click_type: CClickType::Player2Down,
            fps: 0,
        }
    );
    assert_eq!(Click::from(c), press);
}

#[test]
fn click_type_conversions() {
    assert_eq!(CClickType::from_click_type(ClickType::NoClick), CClickType::NoClick);
    assert_eq!(CClickType::from_click_type(ClickType::Player1Up), CClickType::Player1Up);
    assert_eq!(CClickType::Player2Up.to_click_type(), ClickType::Player2Up);
}

#[test]
fn hack_codes() {
    let all = [
        HackName::NoSpike,
        HackName::PracticeMusicFix,
        HackName::AntiCheatBypass,
        HackName::NoRespawnFlash,
        HackName::IgnoreEscape,
        HackName::DisableDeathEffect,
    ];
    for (i, name) in all.iter().enumerate() {
        let code: u16 = (*name).into();
        assert_eq!(code as usize, i + 1);
        assert_eq!(HackName::from_u16(code), *name);
    }
}

#[test]
fn no_clip_codes() {
    let all = [NoClip::Off, NoClip::Player1, NoClip::Player2, NoClip::Both];
    for (i, v) in all.iter().enumerate() {
        let code: u16 = (*v).into();
        assert_eq!(code as usize, i + 1);
        assert_eq!(NoClip::from_u16(code), *v);
    }
}
