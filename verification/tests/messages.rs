use omegabot::hack_handler::{load_hacks, HackHandler, HackName};
use omegabot::message::{is_well_formed, Message};
use omegabot::omegabot::{BotEffect, NoClip, OmegaBot, NORMAL_SPEED};
use omegabot::replay::{rates_equal, ReplayType};
use omegabot::replay_handler::{ReplayHandlerState, UnknownReplay};

fn words(text: &str) -> Vec<u16> {
    text.encode_utf16().collect()
}

#[test]
fn messages_encode_with_their_numbers() {
    assert_eq!(Message::Ping.encode(), vec![1, 1, 0]);
    assert_eq!(Message::Exit.encode(), vec![4, 4, 0]);
    assert_eq!(Message::SetReplayType(ReplayType::Frame).encode(), vec![21, 2]);
    assert_eq!(Message::ChangeFPS(240f32.to_bits()).encode(), vec![5, 0x0000, 0x4370]);
    assert_eq!(Message::ApplyHack(HackName::IgnoreEscape).encode(), vec![19, 5]);
    assert_eq!(Message::SetNoClip(NoClip::Both).encode(), vec![11, 4]);
    assert_eq!(Message::FrameAdvance(true).encode(), vec![8, 1]);
    assert_eq!(Message::SaveReplay(words("a.bin")).encode(), [vec![17], words("a.bin")].concat());
    assert_eq!(Message::StopRecording.code(), 15);
}

#[test]
fn messages_decode_back() {
    let all = vec![
        Message::Ping,
        Message::Error(words("bad")),
        Message::Received,
        Message::Exit,
        Message::ChangeFPS(144f32.to_bits()),
        Message::Speedhack(0.5f32.to_bits()),
        Message::RespawnTime(1.25f32.to_bits()),
        Message::FrameAdvance(false),
        Message::AccuracyFix(true),
        Message::PracticeFix(true),
        Message::SetNoClip(NoClip::Player2),
        Message::StartPlayback,
        Message::StopPlayback,
        Message::StartRecording,
        Message::StopRecording,
        Message::Append,
        Message::SaveReplay(words("x.replay")),
        Message::LoadReplay(words("y.replay")),
        Message::ApplyHack(HackName::NoSpike),
        Message::RestoreHack(HackName::DisableDeathEffect),
        Message::SetReplayType(ReplayType::XPos),
    ];
    for m in all {
        let w = m.encode();
        assert!(is_well_formed(&w));
        assert_eq!(Message::decode(&w), m);
    }
}

#[test]
fn decoding_trims_nuls_and_checks_form() {
    assert_eq!(Message::decode(&vec![18, 0, 104, 105, 0, 0]), Message::LoadReplay(vec![104, 105]));
    assert_eq!(Message::decode(&vec![2]), Message::Error(vec![]));
    assert_eq!(Message::decode(&vec![12]), Message::StartPlayback);
    assert!(!is_well_formed(&vec![]));
    assert!(!is_well_formed(&vec![22]));
    assert!(!is_well_formed(&vec![5, 1]));
    assert!(!is_well_formed(&vec![11, 5]));
    assert!(!is_well_formed(&vec![19, 0]));
    assert!(!is_well_formed(&vec![21, 3]));
}

#[test]
fn bot_handles_messages() {
    let mut bot = OmegaBot::new();
    assert_eq!(bot.speedhack, NORMAL_SPEED);
    bot.running = true;
    let (reply, effect) = bot.parse_message(Message::Ping, 0, 0, 0);
    assert_eq!(reply, Some(Message::Ping));
    assert!(matches!(effect, Some(BotEffect::FlushQueuedMessages)));
    let (reply, effect) = bot.parse_message(Message::Speedhack(2f32.to_bits()), 0, 0, 0);
    assert_eq!(reply, Some(Message::Received));
    assert!(matches!(effect, Some(BotEffect::UpdateFps)));
    assert_eq!(bot.speedhack, 2f32.to_bits());
    bot.parse_message(Message::FrameAdvance(true), 0, 0, 0);
    assert!(bot.frame_advance);
    bot.parse_message(Message::SetNoClip(NoClip::Player1), 0, 0, 0);
    assert_eq!(bot.no_clip, NoClip::Player1);
    let (reply, _) = bot.parse_message(Message::Append, 0, 0, 0);
    assert_eq!(reply, Some(Message::Error(words("Not playing"))));
    bot.parse_message(Message::StartPlayback, 0, 0, 0);
    assert_eq!(bot.replay_handler.state, ReplayHandlerState::Playing);
    let (reply, _) = bot.parse_message(Message::Append, 0, 0, 0);
    assert_eq!(reply, Some(Message::Received));
    assert_eq!(bot.replay_handler.state, ReplayHandlerState::Recording);
    let (reply, effect) = bot.parse_message(Message::ChangeFPS(120f32.to_bits()), 30, 0, 0);
    assert_eq!(reply, Some(Message::Received));
    assert!(matches!(effect, Some(BotEffect::UpdateFps)));
    assert_eq!(bot.replay_handler.default_fps, 120f32.to_bits());
    match &bot.replay_handler.replay {
        UnknownReplay::Standard(r) => assert_eq!(r.clicks.len(), 1),
        UnknownReplay::Full(_) => panic!("expected a click replay"),
    }
    let (reply, effect) = bot.parse_message(Message::SaveReplay(words("f")), 0, 0, 0);
    assert_eq!(reply, None);
    assert!(matches!(effect, Some(BotEffect::SaveReplay(n)) if n == words("f")));
    let (reply, effect) = bot.parse_message(Message::RespawnTime(3f32.to_bits()), 0, 0, 0);
    assert_eq!(reply, Some(Message::Received));
    assert!(matches!(effect, Some(BotEffect::WriteRespawnTime(t)) if t == 3f32.to_bits()));
    bot.parse_message(Message::SetReplayType(ReplayType::XPos), 0, 0, 0);
    assert_eq!(bot.replay_handler.default_replay_type, ReplayType::XPos);
    let (reply, effect) = bot.parse_message(Message::Exit, 0, 0, 0);
    assert_eq!(reply, None);
    assert!(effect.is_none());
    assert!(!bot.running);
}

#[test]
fn bot_plans_hack_writes() {
    let mut bot = OmegaBot::new();
    load_hacks(&mut bot.hack_handler, 0x400000);
    let (reply, effect) = bot.parse_message(Message::ApplyHack(HackName::NoSpike), 0, 0, 0);
    assert_eq!(reply, Some(Message::Received));
    match effect {
        Some(BotEffect::PerformWrites(ws)) => {
            assert_eq!(ws.len(), 1);
            assert_eq!(ws[0].address, 0x400000 + 0x205347);
            assert_eq!(ws[0].bytes, vec![0x75]);
        }
        _ => panic!("expected writes"),
    }
    match bot.parse_message(Message::RestoreHack(HackName::NoSpike), 0, 0, 0).1 {
        Some(BotEffect::PerformWrites(ws)) => assert_eq!(ws[0].bytes, vec![0x74]),
        _ => panic!("expected writes"),
    }
}

#[test]
fn hack_table_is_complete() {
    let mut handler = HackHandler::default();
    load_hacks(&mut handler, 0x1000);
    let counts = [
        (HackName::NoSpike, 1),
        (HackName::PracticeMusicFix, 7),
        (HackName::AntiCheatBypass, 12),
        (HackName::NoRespawnFlash, 1),
        (HackName::IgnoreEscape, 1),
        (HackName::DisableDeathEffect, 1),
    ];
    for (name, n) in counts {
        let hack = &handler.hacks[&u16::from(name)];
        assert_eq!(hack.patches.len(), n);
        for p in &hack.patches {
            assert_eq!(p.new_bytes.len(), p.original_bytes.len());
        }
    }
    let amc = &handler.hacks[&u16::from(HackName::AntiCheatBypass)];
    assert_eq!(amc.patches[11].address, 0x1000 + 0x20C4E6);
    assert_eq!(amc.patches[11].new_bytes, vec![0xE9, 0xD7, 0x00, 0x00, 0x00, 0x90]);
    let pmf = &handler.hacks[&u16::from(HackName::PracticeMusicFix)];
    assert_eq!(pmf.patches[4].address, 0x1000 + 0x204F10);
    assert_eq!(pmf.patches[4].new_bytes, vec![0x90; 13]);
}

#[test]
fn frame_rates_compare_as_floats() {
    assert!(rates_equal(0f32.to_bits(), (-0f32).to_bits()));
    assert!(rates_equal(60f32.to_bits(), 60f32.to_bits()));
    assert!(!rates_equal(60f32.to_bits(), 61f32.to_bits()));
    assert!(!rates_equal(f32::NAN.to_bits(), f32::NAN.to_bits()));
    let mut r = omegabot::replay::Replay::new(0f32.to_bits(), ReplayType::Frame);
    r.change_fps(omegabot::replay::Location::Frame(3), (-0f32).to_bits());
    assert!(r.clicks.is_empty());
    r.change_fps(omegabot::replay::Location::Frame(4), f32::NAN.to_bits());
    assert_eq!(r.clicks.len(), 1);
    r.change_fps(omegabot::replay::Location::Frame(5), f32::NAN.to_bits());
    assert_eq!(r.clicks.len(), 2);
}
