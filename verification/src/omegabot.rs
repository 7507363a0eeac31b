use vstd::prelude::*;

use crate::hack::{writes_all, Hack};
use crate::hack_handler::{hack_code, HackHandler};
use crate::message::Message;
use crate::patch::MemoryWrite;
use crate::player_object::PlayerObject;
use crate::practice_fix::PracticeFix;
use crate::replay_handler::{
    fps_changed, recording_started, recording_stopped, ReplayHandler, ReplayHandlerState, Reply,
};

verus! {

/// Which players cannot die.
#[derive(Clone, Copy, Debug, PartialEq, Eq, Structural)]
pub enum NoClip {
    Off,
    Player1,
    Player2,
    Both,
}

/// The number that stands for a no-clip setting in messages: 1 to 4, in
/// declaration order.
pub open spec fn no_clip_code(v: NoClip) -> u16 {
    match v {
        NoClip::Off => 1,
        NoClip::Player1 => 2,
        NoClip::Player2 => 3,
        NoClip::Both => 4,
    }
}

/// The no-clip setting a number from 1 to 4 stands for.
pub open spec fn no_clip_of_code(value: u16) -> NoClip {
    if value == 1 {
        NoClip::Off
    } else if value == 2 {
        NoClip::Player1
    } else if value == 3 {
        NoClip::Player2
    } else {
        NoClip::Both
    }
}

impl NoClip {
    /// The setting that `value` stands for; `value` must be one of 1 to 4.
    pub fn from_u16(value: u16) -> (r: NoClip)
        requires
            1 <= value <= 4,
        ensures
            r == no_clip_of_code(value),
    {
        if value == 1 {
            NoClip::Off
        } else if value == 2 {
            NoClip::Player1
        } else if value == 3 {
            NoClip::Player2
        } else {
            NoClip::Both
        }
    }
}

impl From<NoClip> for u16 {
    fn from(value: NoClip) -> (r: u16) {
        match value {
            NoClip::Off => 1,
            NoClip::Player1 => 2,
            NoClip::Player2 => 3,
            NoClip::Both => 4,
        }
    }
}

impl vstd::std_specs::convert::FromSpecImpl<NoClip> for u16 {
    open spec fn obeys_from_spec() -> bool {
        true
    }

    open spec fn from_spec(v: NoClip) -> u16 {
        no_clip_code(v)
    }
}

/// A setting's number leads back to the setting.
pub proof fn no_clip_code_round_trip(v: NoClip)
    ensures
        1 <= no_clip_code(v) <= 4,
        no_clip_of_code(no_clip_code(v)) == v,
{
}

/// Every number from 1 to 4 is the number of the setting it stands for.
pub proof fn no_clip_of_code_round_trip(value: u16)
    requires
        1 <= value <= 4,
    ensures
        no_clip_code(no_clip_of_code(value)) == value,
{
}

/// Whether `player` may die, with the level's players `player1` and
/// `player2`: always with no-clip off, never with it on for both, and
/// otherwise unless it is the protected player.
pub fn allow_death(no_clip: NoClip, player1: PlayerObject, player2: PlayerObject, player: PlayerObject) -> (r: bool)
    ensures
        r == match no_clip {
            NoClip::Off => true,
            NoClip::Both => false,
            NoClip::Player1 => player1 != player,
            NoClip::Player2 => player2 != player,
        },
{
    match no_clip {
        NoClip::Off => true,
        NoClip::Both => false,
        NoClip::Player1 => player1 != player,
        NoClip::Player2 => player2 != player,
    }
}

/// The words of the text "Not playing", the answer to appending while not
/// playing.
pub open spec fn not_playing_words() -> Seq<u16> {
    seq![78u16, 111, 116, 32, 112, 108, 97, 121, 105, 110, 103]
}

/// The bit pattern of the `f32` value 1.0, the normal game speed.
pub const NORMAL_SPEED: u32 = 0x3F80_0000;

/// The bot's state that messages from its controller change.
pub struct OmegaBot {
    pub running: bool,
    pub replay_handler: ReplayHandler,
    pub hack_handler: HackHandler,
    pub practice_fix: PracticeFix,
    pub speedhack: u32,
    pub no_clip: NoClip,
    pub frame_advance: bool,
}

/// What the bot must do outside itself after a message, before it answers.
pub enum BotEffect {
    /// Send the messages queued for the controller.
    FlushQueuedMessages,
    /// Set the game's frame interval from the frame rate and speed.
    UpdateFps,
    /// Make the game use this respawn time (`f32` bits).
    WriteRespawnTime(u32),
    /// Write these bytes into the game's code.
    PerformWrites(Vec<MemoryWrite>),
    /// Save the replay to the file with this UTF-16 name, and answer.
    SaveReplay(Vec<u16>),
    /// Load the replay from the file with this UTF-16 name, and answer.
    LoadReplay(Vec<u16>),
}

impl OmegaBot {
    /// A bot that is not running, with idle replays, no hacks, no
    /// checkpoints, normal speed, no-clip off and no frame advance.
    pub fn new() -> (r: Self)
        ensures
            !r.running,
            r.replay_handler.state == ReplayHandlerState::Idle,
            r.hack_handler.hacks@ == Map::<u16, Hack>::empty(),
            r.practice_fix.checkpoints@.len() == 0,
            r.practice_fix.activated_objects@.len() == 0,
            r.practice_fix.activated_objects_p2@.len() == 0,
            r.practice_fix.active,
            r.practice_fix.auto_hold,
            r.speedhack == NORMAL_SPEED,
            r.no_clip == NoClip::Off,
            !r.frame_advance,
    {
        OmegaBot {
            running: false,
            replay_handler: ReplayHandler::default(),
            hack_handler: HackHandler::default(),
            practice_fix: PracticeFix::default(),
            speedhack: NORMAL_SPEED,
            no_clip: NoClip::Off,
            frame_advance: false,
        }
    }

    /// Handles a message from the controller: the state changes it makes,
    /// the answer to send (if any) and what to do outside first (if
    /// anything). `frame`, `time` and `x_pos` are the frame number, the play
    /// time (`f64` bits) and player 1's x position, read when recording a
    /// change of frame rate. The controller never sends `Error` or
    /// `Received`, and only hacks that are registered.
    pub fn parse_message(&mut self, message: Message, frame: u32, time: u64, x_pos: u32) -> (r: (
        Option<Message>,
        Option<BotEffect>,
    ))
        requires
            !(message is Error || message is Received),
            message is ChangeFPS && old(self).replay_handler.state == ReplayHandlerState::Recording
                ==> old(self).replay_handler.replay is Standard,
            message matches Message::ApplyHack(h) ==> old(self).hack_handler.hacks@.contains_key(
                hack_code(h),
            ),
            message matches Message::RestoreHack(h) ==> old(self).hack_handler.hacks@.contains_key(
                hack_code(h),
            ),
        ensures
            match message {
                Message::Ping => *final(self) == *old(self) && r == (
                    Some(Message::Ping),
                    Some(BotEffect::FlushQueuedMessages),
                ),
                Message::Exit => *final(self) == (OmegaBot { running: false, ..*old(self) }) && r == (
                    None::<Message>,
                    None::<BotEffect>,
                ),
                Message::ChangeFPS(f) => *final(self) == (OmegaBot {
                    replay_handler: final(self).replay_handler,
                    ..*old(self)
                }) && fps_changed(old(self).replay_handler, final(self).replay_handler, f, frame, time, x_pos)
                    && r == (Some(Message::Received), Some(BotEffect::UpdateFps)),
                Message::Speedhack(s) => *final(self) == (OmegaBot { speedhack: s, ..*old(self) }) && r == (
                    Some(Message::Received),
                    Some(BotEffect::UpdateFps),
                ),
                Message::RespawnTime(t) => *final(self) == *old(self) && r == (
                    Some(Message::Received),
                    Some(BotEffect::WriteRespawnTime(t)),
                ),
                Message::FrameAdvance(b) => *final(self) == (OmegaBot { frame_advance: b, ..*old(self) })
                    && r == (Some(Message::Received), None::<BotEffect>),
                Message::AccuracyFix(b) => *final(self) == (OmegaBot {
                    replay_handler: ReplayHandler { accuracy_fix: b, ..old(self).replay_handler },
                    ..*old(self)
                }) && r == (Some(Message::Received), None::<BotEffect>),
                Message::PracticeFix(b) => *final(self) == (OmegaBot {
                    practice_fix: final(self).practice_fix,
                    ..*old(self)
                }) && final(self).practice_fix.active == b && final(self).practice_fix.auto_hold
                    == old(self).practice_fix.auto_hold && final(self).practice_fix.checkpoints@
                    == old(self).practice_fix.checkpoints@ && final(self).practice_fix.activated_objects@
                    == old(self).practice_fix.activated_objects@
                    && final(self).practice_fix.activated_objects_p2@
                    == old(self).practice_fix.activated_objects_p2@ && r == (
                    Some(Message::Received),
                    None::<BotEffect>,
                ),
                Message::SetNoClip(n) => *final(self) == (OmegaBot { no_clip: n, ..*old(self) }) && r == (
                    Some(Message::Received),
                    None::<BotEffect>,
                ),
                Message::StartPlayback => *final(self) == (OmegaBot {
                    replay_handler: ReplayHandler {
                        state: ReplayHandlerState::Playing,
                        ..old(self).replay_handler
                    },
                    ..*old(self)
                }) && r == (Some(Message::Received), None::<BotEffect>),
                Message::StopPlayback => *final(self) == (OmegaBot {
                    replay_handler: ReplayHandler {
                        state: ReplayHandlerState::Idle,
                        ..old(self).replay_handler
                    },
                    ..*old(self)
                }) && r == (Some(Message::Received), None::<BotEffect>),
                Message::StartRecording => *final(self) == (OmegaBot {
                    replay_handler: final(self).replay_handler,
                    ..*old(self)
                }) && recording_started(old(self).replay_handler, final(self).replay_handler) && r == (
                    Some(Message::Received),
                    None::<BotEffect>,
                ),
                Message::StopRecording => *final(self) == (OmegaBot {
                    replay_handler: final(self).replay_handler,
                    ..*old(self)
                }) && recording_stopped(old(self).replay_handler, final(self).replay_handler) && r == (
                    Some(Message::Received),
                    None::<BotEffect>,
                ),
                Message::Append => r.1 is None && if old(self).replay_handler.state
                    == ReplayHandlerState::Playing {
                    *final(self) == (OmegaBot {
                        replay_handler: ReplayHandler {
                            state: ReplayHandlerState::Recording,
                            ..old(self).replay_handler
                        },
                        ..*old(self)
                    }) && r.0 == Some(Message::Received)
                } else {
                    *final(self) == *old(self) && (r.0 matches Some(Message::Error(t)) && t@
                        == not_playing_words())
                },
                Message::SaveReplay(name) => *final(self) == *old(self) && r.0 is None && (r.1 matches Some(
                    BotEffect::SaveReplay(n),
                ) && n@ == name@),
                Message::LoadReplay(name) => *final(self) == *old(self) && r.0 is None && (r.1 matches Some(
                    BotEffect::LoadReplay(n),
                ) && n@ == name@),
                Message::ApplyHack(h) => *final(self) == *old(self) && r.0 == Some(Message::Received) && (
                r.1 matches Some(BotEffect::PerformWrites(ws)) && writes_all(
                    ws@,
                    old(self).hack_handler.hacks@[hack_code(h)].patches@,
                    false,
                )),
                Message::RestoreHack(h) => *final(self) == *old(self) && r.0 == Some(Message::Received)
                    && (r.1 matches Some(BotEffect::PerformWrites(ws)) && writes_all(
                    ws@,
                    old(self).hack_handler.hacks@[hack_code(h)].patches@,
                    true,
                )),
                Message::SetReplayType(t) => *final(self) == (OmegaBot {
                    replay_handler: ReplayHandler { default_replay_type: t, ..old(self).replay_handler },
                    ..*old(self)
                }) && r == (Some(Message::Received), None::<BotEffect>),
                Message::Error(_) | Message::Received => true,
            },
    {
        match message {
            Message::Ping => (Some(Message::Ping), Some(BotEffect::FlushQueuedMessages)),
            Message::Exit => {
                self.running = false;
                (None, None)
            },
            Message::ChangeFPS(fps) => {
                self.replay_handler.change_fps(fps, frame, time, x_pos);
                (Some(Message::Received), Some(BotEffect::UpdateFps))
            },
            Message::Speedhack(speedhack) => {
                self.speedhack = speedhack;
                (Some(Message::Received), Some(BotEffect::UpdateFps))
            },
            Message::RespawnTime(respawn_time) => (
                Some(Message::Received),
                Some(BotEffect::WriteRespawnTime(respawn_time)),
            ),
            Message::FrameAdvance(frame_advance) => {
                if self.frame_advance != frame_advance {
                    self.frame_advance = !self.frame_advance;
                }
                (Some(Message::Received), None)
            },
            Message::AccuracyFix(accuracy_fix) => {
                self.replay_handler.set_accuracy_fix(accuracy_fix);
                (Some(Message::Received), None)
            },
            Message::PracticeFix(practice_fix) => {
                self.practice_fix.set_active(practice_fix);
                (Some(Message::Received), None)
            },
            Message::SetNoClip(no_clip) => {
                self.no_clip = no_clip;
                (Some(Message::Received), None)
            },
            Message::StartPlayback => {
                self.replay_handler.start_playback();
                (Some(Message::Received), None)
            },
            Message::StopPlayback => {
                self.replay_handler.stop_playback();
                (Some(Message::Received), None)
            },
            Message::StartRecording => {
                self.replay_handler.start_recording();
                (Some(Message::Received), None)
            },
            Message::StopRecording => {
                self.replay_handler.stop_recording();
                (Some(Message::Received), None)
            },
            Message::Append => {
                match self.replay_handler.append() {
                    Reply::Received => (Some(Message::Received), None),
                    Reply::Error(_) => (
                        Some(
                            Message::Error(vec![78u16, 111, 116, 32, 112, 108, 97, 121, 105, 110, 103]),
                        ),
                        None,
                    ),
                }
            },
            Message::SaveReplay(name) => (None, Some(BotEffect::SaveReplay(name))),
            Message::LoadReplay(name) => (None, Some(BotEffect::LoadReplay(name))),
            Message::ApplyHack(hack) => (
                Some(Message::Received),
                Some(BotEffect::PerformWrites(self.hack_handler.apply(hack))),
            ),
            Message::RestoreHack(hack) => (
                Some(Message::Received),
                Some(BotEffect::PerformWrites(self.hack_handler.restore(hack))),
            ),
            Message::SetReplayType(replay_type) => {
                self.replay_handler.set_replay_type(replay_type);
                (Some(Message::Received), None)
            },
            Message::Error(_) | Message::Received => (None, None),
        }
    }
}

} // verus!
