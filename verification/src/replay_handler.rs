use vstd::prelude::*;
use vstd::string::StringExecFns;

use crate::full_replay::FullReplay;
use crate::replay::{
    advanced_over, can_reset, kind_matches, same_rate, reset_from, Click, ClickType, Location, Replay,
    ReplayType,
};
use crate::spam_bot::{stop_releases, SpamBot, SpamBotState};

verus! {

/// The bit pattern of the `f32` value 60.0, the default frame rate.
pub const DEFAULT_FPS: u32 = 0x4270_0000;

/// Whether the bot is idle, recording or playing back.
#[derive(Clone, Copy, Debug, PartialEq, Eq, Structural)]
pub enum ReplayHandlerState {
    Idle,
    Recording,
    Playing,
}

/// The replay in use: a click replay, or a full frame-by-frame one.
pub enum UnknownReplay {
    Standard(Replay),
    Full(FullReplay),
}

/// Which kind of replay a replay file holds.
#[derive(Clone, Copy, Debug, PartialEq, Eq, Structural)]
pub enum ReplayKind {
    Standard,
    Full,
}

/// The handler's answer to a request.
#[derive(Debug)]
pub enum Reply {
    Received,
    Error(String),
}

/// A press or release of one of the game's two buttons.
#[derive(Clone, Copy, Debug, PartialEq, Eq, Structural)]
pub struct ButtonAction {
    pub press: bool,
    pub button: bool,
}

/// The location at which a replay of type `t` records an event, given the
/// player's x position and the frame number.
pub open spec fn location_for(t: ReplayType, x_pos: u32, frame: u32) -> Location {
    match t {
        ReplayType::XPos => Location::XPos(x_pos),
        ReplayType::Frame => Location::Frame(frame),
    }
}

/// The click type a recorded button event becomes: player 1's in one-player
/// levels, else the player whose button it is (the buttons swapped when the
/// flip setting is on).
pub open spec fn recorded_click_type(is_2player: bool, flip_setting: bool, press: bool, button: bool) -> ClickType {
    let flip = is_2player && flip_setting;
    let player1 = !is_2player || (button != flip);
    if player1 {
        if press { ClickType::Player1Down } else { ClickType::Player1Up }
    } else {
        if press { ClickType::Player2Down } else { ClickType::Player2Up }
    }
}

/// The button action that plays a click, if it presses or releases a button:
/// player 1's clicks go to button `true`, player 2's to `false`, swapped when
/// the flip setting is on.
pub open spec fn action_for(click_type: ClickType, flip_setting: bool) -> Option<ButtonAction> {
    match click_type {
        ClickType::FpsChange(_) | ClickType::NoClick => None,
        _ => {
            let press = click_type is Player1Down || click_type is Player2Down;
            let player2 = click_type is Player2Down || click_type is Player2Up;
            Some(ButtonAction { press, button: (!player2) != flip_setting })
        },
    }
}

impl ReplayType {
    /// The location at which a replay of this type records an event.
    pub fn location_at(&self, x_pos: u32, frame: u32) -> (r: Location)
        ensures
            r == location_for(*self, x_pos, frame),
            kind_matches(r, *self),
    {
        match self {
            ReplayType::XPos => Location::XPos(x_pos),
            ReplayType::Frame => Location::Frame(frame),
        }
    }
}

impl UnknownReplay {
    /// The replay's frame rate at the playback position.
    pub open spec fn fps(&self) -> u32 {
        match self {
            UnknownReplay::Standard(r) => r.current_fps,
            UnknownReplay::Full(r) => r.current_fps,
        }
    }

    /// The kind of replay.
    pub open spec fn kind(&self) -> ReplayKind {
        match self {
            UnknownReplay::Standard(_) => ReplayKind::Standard,
            UnknownReplay::Full(_) => ReplayKind::Full,
        }
    }
}

/// The button action that plays a click, if the click presses or releases
/// a button (see [`action_for`]).
pub fn button_action(click_type: ClickType, flip_setting: bool) -> (r: Option<ButtonAction>)
    ensures
        r == action_for(click_type, flip_setting),
{
    match click_type {
        ClickType::FpsChange(_) | ClickType::NoClick => None,
        _ => {
            let press = matches!(click_type, ClickType::Player1Down | ClickType::Player2Down);
            let player2 = matches!(click_type, ClickType::Player2Down | ClickType::Player2Up);
            Some(ButtonAction { press, button: !player2 ^ flip_setting })
        },
    }
}

/// The kind of replay a replay file holds, from its first byte (0 for a
/// click replay, 1 for a full one).
pub fn replay_file_kind(data: &Vec<u8>) -> (r: ReplayKind)
    requires
        data@.len() >= 1,
        data@[0] <= 1,
    ensures
        kind_tag(r) == data@[0],
{
    if data[0] == 0 {
        ReplayKind::Standard
    } else {
        ReplayKind::Full
    }
}

/// The settings of `a` and `b` agree: everything but the replay.
pub open spec fn same_settings(a: ReplayHandler, b: ReplayHandler) -> bool {
    &&& a.state == b.state
    &&& a.default_replay_type == b.default_replay_type
    &&& a.accuracy_fix == b.accuracy_fix
    &&& a.default_fps == b.default_fps
    &&& a.frame_offset == b.frame_offset
    &&& a.time_offset == b.time_offset
    &&& a.spam_bot == b.spam_bot
}

/// The byte that opens a replay file of the given kind.
pub open spec fn kind_tag(k: ReplayKind) -> u8 {
    match k {
        ReplayKind::Standard => 0,
        ReplayKind::Full => 1,
    }
}

/// What the bot does with replays: records them, plays them back, and runs
/// the spam bot. Frame rates and play times are `f32` and `f64` bit
/// patterns; the frame number is worked out from the play time, the frame
/// rate and the offsets kept here.
pub struct ReplayHandler {
    pub state: ReplayHandlerState,
    pub default_replay_type: ReplayType,
    pub replay: UnknownReplay,
    pub accuracy_fix: bool,
    pub default_fps: u32,
    pub frame_offset: u32,
    pub time_offset: u64,
    pub spam_bot: SpamBot,
}

/// `n` is `o` once recording started: recording, into a new, empty replay
/// of the default type at the default frame rate (a full replay, at frame 0
/// with no buttons, when the accuracy fix is on); nothing else changes.
pub open spec fn recording_started(o: ReplayHandler, n: ReplayHandler) -> bool {
    &&& n == (ReplayHandler { state: ReplayHandlerState::Recording, replay: n.replay, ..o })
    &&& o.accuracy_fix ==> (n.replay matches UnknownReplay::Full(rp) && rp.initial_fps == o.default_fps
        && rp.current_fps == o.default_fps && rp.replay_type == o.default_replay_type
        && rp.current_frame == 0 && rp.current_clicks.0@.len() == 0 && rp.current_clicks.1@.len() == 0
        && rp.frames@.len() == 0)
    &&& !o.accuracy_fix ==> (n.replay matches UnknownReplay::Standard(rp) && rp.initial_fps
        == o.default_fps && rp.current_fps == o.default_fps && rp.replay_type == o.default_replay_type
        && rp.current_click == 0 && rp.clicks@.len() == 0)
}

/// `n` is `o` once recording stopped: idle, with the replay's recorded
/// content, position, buttons and rates kept; nothing else changes.
pub open spec fn recording_stopped(o: ReplayHandler, n: ReplayHandler) -> bool {
    &&& n == (ReplayHandler { state: ReplayHandlerState::Idle, replay: n.replay, ..o })
    &&& n.replay.kind() == o.replay.kind()
    &&& n.replay.fps() == o.replay.fps()
    &&& o.replay matches UnknownReplay::Standard(a) ==> (n.replay matches UnknownReplay::Standard(b)
        && b.clicks@ == a.clicks@ && b.current_click == a.current_click && b.initial_fps
        == a.initial_fps && b.replay_type == a.replay_type)
    &&& o.replay matches UnknownReplay::Full(a) ==> (n.replay matches UnknownReplay::Full(b)
        && b.frames@ == a.frames@ && b.initial_fps == a.initial_fps && b.replay_type
        == a.replay_type && b.current_frame == a.current_frame && b.current_clicks.0@
        == a.current_clicks.0@ && b.current_clicks.1@ == a.current_clicks.1@)
}

/// `n` is `o` once the default frame rate became `fps`: when recording, the
/// frame count goes on from `frame` at play time `time`, and a change of
/// rate (as an `f32`) is recorded at the player's x position or the frame,
/// as the replay's type says.
pub open spec fn fps_changed(o: ReplayHandler, n: ReplayHandler, fps: u32, frame: u32, time: u64, x_pos: u32) -> bool {
    &&& n.default_fps == fps
    &&& n.state == o.state
    &&& n.default_replay_type == o.default_replay_type
    &&& n.accuracy_fix == o.accuracy_fix
    &&& n.spam_bot == o.spam_bot
    &&& o.state != ReplayHandlerState::Recording ==> n.replay == o.replay && n.frame_offset
        == o.frame_offset && n.time_offset == o.time_offset
    &&& o.state == ReplayHandlerState::Recording ==> n.frame_offset == frame && n.time_offset == time
    &&& o.state == ReplayHandlerState::Recording ==> (o.replay matches UnknownReplay::Standard(a)
        && n.replay matches UnknownReplay::Standard(b) && b.initial_fps == a.initial_fps
        && b.replay_type == a.replay_type && b.current_click == a.current_click && (!same_rate(
        a.current_fps,
        fps,
    ) ==> b.current_fps == fps && b.clicks@ == a.clicks@.push(
        Click {
            location: location_for(a.replay_type, x_pos, frame),
            click_type: ClickType::FpsChange(fps),
        },
    )) && (same_rate(a.current_fps, fps) ==> b.current_fps == a.current_fps && b.clicks@
        == a.clicks@))
}

impl Default for ReplayHandler {
    /// Idle, with an empty frame replay at 60 frames per second.
    fn default() -> (r: Self)
        ensures
            r.state == ReplayHandlerState::Idle,
            r.default_replay_type == ReplayType::Frame,
            r.replay matches UnknownReplay::Standard(rp) && rp.initial_fps == DEFAULT_FPS
                && rp.current_fps == DEFAULT_FPS && rp.replay_type == ReplayType::Frame
                && rp.current_click == 0 && rp.clicks@.len() == 0,
            !r.accuracy_fix,
            r.default_fps == DEFAULT_FPS,
            r.frame_offset == 0,
            r.time_offset == 0,
            r.spam_bot.state == SpamBotState::Off,
    {
        ReplayHandler {
            state: ReplayHandlerState::Idle,
            default_replay_type: ReplayType::Frame,
            replay: UnknownReplay::Standard(Replay::new(DEFAULT_FPS, ReplayType::Frame)),
            accuracy_fix: false,
            default_fps: DEFAULT_FPS,
            frame_offset: 0,
            time_offset: 0,
            spam_bot: SpamBot::default(),
        }
    }
}

impl ReplayHandler {
    /// Starts playing the replay back.
    pub fn start_playback(&mut self)
        ensures
            *final(self) == (ReplayHandler { state: ReplayHandlerState::Playing, ..*old(self) }),
    {
        self.state = ReplayHandlerState::Playing;
    }

    /// Stops playing back.
    pub fn stop_playback(&mut self)
        ensures
            *final(self) == (ReplayHandler { state: ReplayHandlerState::Idle, ..*old(self) }),
    {
        self.state = ReplayHandlerState::Idle;
    }

    /// Starts recording into a new, empty replay of the default type at the
    /// default frame rate: a full replay when the accuracy fix is on.
    pub fn start_recording(&mut self)
        ensures
            recording_started(*old(self), *final(self)),
    {
        self.state = ReplayHandlerState::Recording;
        self.replay = if self.accuracy_fix {
            UnknownReplay::Full(FullReplay::new(self.default_fps, self.default_replay_type))
        } else {
            UnknownReplay::Standard(Replay::new(self.default_fps, self.default_replay_type))
        };
    }

    /// Stops recording; the replay keeps its clicks.
    pub fn stop_recording(&mut self)
        ensures
            recording_stopped(*old(self), *final(self)),
    {
        self.state = ReplayHandlerState::Idle;
        match &mut self.replay {
            UnknownReplay::Standard(replay) => replay.finalise(),
            UnknownReplay::Full(replay) => replay.finalise(),
        }
    }

    /// Switches from playing back to recording, from the playback position
    /// on; refused unless playing.
    pub fn append(&mut self) -> (r: Reply)
        ensures
            old(self).state != ReplayHandlerState::Playing ==> *final(self) == *old(self),
            old(self).state != ReplayHandlerState::Playing ==> (r matches Reply::Error(msg) && msg@
                == "Not playing"@),
            old(self).state == ReplayHandlerState::Playing ==> *final(self) == (ReplayHandler {
                state: ReplayHandlerState::Recording,
                ..*old(self)
            }) && r is Received,
    {
        if self.state != ReplayHandlerState::Playing {
            Reply::Error(String::from_str("Not playing"))
        } else {
            self.state = ReplayHandlerState::Recording;
            Reply::Received
        }
    }
}

impl ReplayHandler {
    /// The clicks of playback that are due, when a level runs (`running`:
    /// not dead, not paused) and the handler plays a click replay: playback
    /// moves past them, at the player's x position or the frame number as
    /// the replay's type says.
    pub fn on_update(&mut self, running: bool, x_pos: u32, frame: u32) -> (r: Vec<Click>)
        requires
            running && old(self).state == ReplayHandlerState::Playing ==> old(self).replay is Standard,
        ensures
            same_settings(*final(self), *old(self)),
            !(running && old(self).state == ReplayHandlerState::Playing) ==> r@.len() == 0
                && final(self).replay == old(self).replay,
            running && old(self).state == ReplayHandlerState::Playing ==> (old(self).replay matches UnknownReplay::Standard(o)
                && final(self).replay matches UnknownReplay::Standard(n)
                && n.clicks@ == o.clicks@ && n.initial_fps == o.initial_fps
                && n.replay_type == o.replay_type
                && advanced_over(
                o.clicks@,
                o.current_click as int,
                o.current_fps,
                location_for(o.replay_type, x_pos, frame),
                n.current_click as int,
                n.current_fps,
                r@,
            )),
    {
        if running && self.state == ReplayHandlerState::Playing {
            match &mut self.replay {
                UnknownReplay::Standard(replay) => {
                    let location = replay.get_type().location_at(x_pos, frame);
                    replay.get_current_clicks(location)
                },
                UnknownReplay::Full(_) => Vec::new(),
            }
        } else {
            Vec::new()
        }
    }

    /// When playing, notes that the frame rate changed: the frame count goes
    /// on from `frame_at_old_fps` at play time `time`.
    pub fn on_fps_change(&mut self, frame_at_old_fps: u32, time: u64)
        ensures
            final(self).replay == old(self).replay,
            old(self).state == ReplayHandlerState::Playing ==> *final(self) == (ReplayHandler {
                frame_offset: frame_at_old_fps,
                time_offset: time,
                ..*old(self)
            }),
            old(self).state != ReplayHandlerState::Playing ==> *final(self) == *old(self),
    {
        if self.state == ReplayHandlerState::Playing {
            self.frame_offset = frame_at_old_fps;
            self.time_offset = time;
        }
    }

    /// Sets the default frame rate; when recording, also records the change
    /// at the current `frame` (counted on from there at play time `time`) or
    /// the player's x position.
    pub fn change_fps(&mut self, fps: u32, frame: u32, time: u64, x_pos: u32)
        requires
            old(self).state == ReplayHandlerState::Recording ==> old(self).replay is Standard,
        ensures
            fps_changed(*old(self), *final(self), fps, frame, time, x_pos),
    {
        if self.state == ReplayHandlerState::Recording {
            self.frame_offset = frame;
            self.time_offset = time;
            match &mut self.replay {
                UnknownReplay::Standard(replay) => {
                    let location = replay.get_type().location_at(x_pos, self.frame_offset);
                    replay.change_fps(location, fps);
                },
                UnknownReplay::Full(_) => {},
            }
        }
        self.default_fps = fps;
    }

    /// When recording, records a press or release of `button` at the
    /// player's x position or the `frame`, as the replay's type says (see
    /// [`recorded_click_type`] for the click type).
    pub fn on_click(
        &mut self,
        is_2player: bool,
        flip_setting: bool,
        press: bool,
        button: bool,
        x_pos: u32,
        frame: u32,
    )
        requires
            old(self).state == ReplayHandlerState::Recording ==> old(self).replay is Standard,
        ensures
            same_settings(*final(self), *old(self)),
            old(self).state != ReplayHandlerState::Recording ==> final(self).replay == old(self).replay,
            old(self).state == ReplayHandlerState::Recording ==> (old(self).replay matches UnknownReplay::Standard(o)
                && final(self).replay matches UnknownReplay::Standard(n)
                && n.initial_fps == o.initial_fps && n.replay_type == o.replay_type
                && n.current_click == o.current_click && n.current_fps == o.current_fps
                && n.clicks@ == o.clicks@.push(
                Click {
                    location: location_for(o.replay_type, x_pos, frame),
                    click_type: recorded_click_type(is_2player, flip_setting, press, button),
                },
            )),
    {
        if self.state == ReplayHandlerState::Recording {
            let flip = is_2player && flip_setting;
            let player1 = !is_2player || (button ^ flip);
            let click_type = if player1 {
                if press {
                    ClickType::Player1Down
                } else {
                    ClickType::Player1Up
                }
            } else if press {
                ClickType::Player2Down
            } else {
                ClickType::Player2Up
            };
            match &mut self.replay {
                UnknownReplay::Standard(replay) => {
                    let location = replay.get_type().location_at(x_pos, frame);
                    replay.add_click(Click { location, click_type });
                },
                UnknownReplay::Full(_) => {},
            }
        }
    }

    /// The first part of restarting the level: the frame count starts over
    /// and a running spam bot stops (the releases it gives are dropped).
    pub fn on_reset_level(&mut self, in_level: bool, is_2player: bool, p1_holding: bool, p2_holding: bool)
        ensures
            *final(self) == (ReplayHandler {
                frame_offset: 0,
                time_offset: 0,
                spam_bot: SpamBot { state: SpamBotState::Off, ..old(self).spam_bot },
                ..*old(self)
            }),
    {
        self.frame_offset = 0;
        self.time_offset = 0;
        if self.spam_bot.is_running() {
            self.spam_bot.stop(in_level, is_2player, p1_holding, p2_holding);
        }
    }

    /// The second part of restarting the level: unless idle, the replay
    /// restarts from the player's x position or the `frame` (as its type
    /// says), dropping what follows when recording (see [`Replay::reset`]).
    pub fn reset_replay(&mut self, x_pos: u32, frame: u32)
        requires
            old(self).state != ReplayHandlerState::Idle ==> (old(self).replay matches UnknownReplay::Standard(o)
                && can_reset(
                o,
                location_for(o.replay_type, x_pos, frame),
                old(self).state == ReplayHandlerState::Recording,
            )),
        ensures
            same_settings(*final(self), *old(self)),
            old(self).state == ReplayHandlerState::Idle ==> final(self).replay == old(self).replay,
            old(self).state != ReplayHandlerState::Idle ==> (old(self).replay matches UnknownReplay::Standard(o)
                && final(self).replay matches UnknownReplay::Standard(n)
                && reset_from(
                o,
                n,
                location_for(o.replay_type, x_pos, frame),
                old(self).state == ReplayHandlerState::Recording,
            )),
    {
        if self.state != ReplayHandlerState::Idle {
            let wipe = self.state == ReplayHandlerState::Recording;
            match &mut self.replay {
                UnknownReplay::Standard(replay) => {
                    let location = replay.get_type().location_at(x_pos, frame);
                    replay.reset(location, wipe);
                },
                UnknownReplay::Full(_) => {},
            }
        }
    }

    /// Leaving the level: the spam bot stops (the releases it gives are
    /// dropped).
    pub fn on_quit(&mut self, in_level: bool, is_2player: bool, p1_holding: bool, p2_holding: bool)
        ensures
            *final(self) == (ReplayHandler {
                spam_bot: SpamBot { state: SpamBotState::Off, ..old(self).spam_bot },
                ..*old(self)
            }),
    {
        self.spam_bot.stop(in_level, is_2player, p1_holding, p2_holding);
    }

    /// Stops straight flying, giving the releases to play, or starts it at
    /// the given start heights (see [`SpamBot::start_straight_fly`]).
    pub fn toggle_straight_fly(
        &mut self,
        in_level: bool,
        is_2player: bool,
        p1_holding: bool,
        p2_holding: bool,
        start_heights: Option<(u32, u32)>,
    ) -> (r: Vec<ClickType>)
        ensures
            final(self).replay == old(self).replay,
            old(self).spam_bot.state is StraightFly ==> *final(self) == (ReplayHandler {
                spam_bot: SpamBot { state: SpamBotState::Off, ..old(self).spam_bot },
                ..*old(self)
            }) && r@ == stop_releases(old(self).spam_bot, in_level, is_2player, p1_holding, p2_holding),
            !(old(self).spam_bot.state is StraightFly) ==> r@.len() == 0 && (match start_heights {
                None => *final(self) == *old(self),
                Some((y1, y2)) => *final(self) == (ReplayHandler {
                    spam_bot: SpamBot {
                        state: SpamBotState::StraightFly,
                        start_y_p1: y1,
                        start_y_p2: y2,
                        ..old(self).spam_bot
                    },
                    ..*old(self)
                }),
            }),
    {
        if self.spam_bot.is_straight_flying() {
            self.spam_bot.stop(in_level, is_2player, p1_holding, p2_holding)
        } else {
            self.spam_bot.start_straight_fly(start_heights);
            Vec::new()
        }
    }

    /// Stops spamming, giving the releases to play, or starts spamming when a
    /// level runs.
    pub fn toggle_spam(&mut self, in_level: bool, is_2player: bool, p1_holding: bool, p2_holding: bool) -> (r: Vec<ClickType>)
        ensures
            final(self).replay == old(self).replay,
            old(self).spam_bot.state is Spam ==> *final(self) == (ReplayHandler {
                spam_bot: SpamBot { state: SpamBotState::Off, ..old(self).spam_bot },
                ..*old(self)
            }) && r@ == stop_releases(old(self).spam_bot, in_level, is_2player, p1_holding, p2_holding),
            !(old(self).spam_bot.state is Spam) ==> r@.len() == 0 && (if in_level {
                *final(self) == (ReplayHandler {
                    spam_bot: SpamBot { state: SpamBotState::Spam, frame: 0, ..old(self).spam_bot },
                    ..*old(self)
                })
            } else {
                *final(self) == *old(self)
            }),
    {
        if self.spam_bot.is_spamming() {
            self.spam_bot.stop(in_level, is_2player, p1_holding, p2_holding)
        } else {
            self.spam_bot.start_spam(in_level);
            Vec::new()
        }
    }

    /// The contents of a replay file for the replay in use, given the
    /// replay's serialised form: a byte for its kind, then the serialised
    /// replay.
    pub fn replay_file_data(&self, serialised: &Vec<u8>) -> (r: Vec<u8>)
        ensures
            r@ == seq![kind_tag(self.replay.kind())] + serialised@,
    {
        let mut data: Vec<u8> = Vec::new();
        data.push(
            match self.replay {
                UnknownReplay::Standard(_) => 0u8,
                UnknownReplay::Full(_) => 1u8,
            },
        );
        let n = serialised.len();
        let mut i: usize = 0;
        while i < n
            invariant
                n == serialised@.len(),
                i <= n,
                data@ == seq![kind_tag(self.replay.kind())] + serialised@.take(i as int),
            decreases n - i,
        {
            data.push(serialised[i]);
            i = i + 1;
            assert(data@ =~= seq![kind_tag(self.replay.kind())] + serialised@.take(i as int));
        }
        assert(serialised@.take(n as int) =~= serialised@);
        data
    }
}

// Getters and setters
impl ReplayHandler {
    /// Whether the handler is idle, recording or playing.
    pub fn get_state(&self) -> (r: ReplayHandlerState)
        ensures
            r == self.state,
    {
        self.state
    }

    /// The frame rate in force: the default one when idle, else the
    /// replay's.
    pub fn get_fps(&self) -> (r: u32)
        ensures
            r == if self.state == ReplayHandlerState::Idle {
                self.default_fps
            } else {
                self.replay.fps()
            },
    {
        match self.state {
            ReplayHandlerState::Idle => self.default_fps,
            _ => match &self.replay {
                UnknownReplay::Standard(replay) => replay.get_current_fps(),
                UnknownReplay::Full(replay) => replay.get_current_fps(),
            },
        }
    }

    /// Sets where the frame count goes on from.
    pub fn set_frame(&mut self, frame_offset: u32, time_offset: u64)
        ensures
            *final(self) == (ReplayHandler { frame_offset, time_offset, ..*old(self) }),
    {
        self.time_offset = time_offset;
        self.frame_offset = frame_offset;
    }

    /// The play time the frame count goes on from.
    pub fn get_time_offset(&self) -> (r: u64)
        ensures
            r == self.time_offset,
    {
        self.time_offset
    }

    /// The frame the frame count goes on from.
    pub fn get_frame_offset(&self) -> (r: u32)
        ensures
            r == self.frame_offset,
    {
        self.frame_offset
    }

    /// Sets the type of replays to record.
    pub fn set_replay_type(&mut self, replay_type: ReplayType)
        ensures
            *final(self) == (ReplayHandler { default_replay_type: replay_type, ..*old(self) }),
    {
        self.default_replay_type = replay_type;
    }

    /// Turns the accuracy fix (full replays) on or off.
    pub fn set_accuracy_fix(&mut self, accuracy_fix: bool)
        ensures
            *final(self) == (ReplayHandler { accuracy_fix, ..*old(self) }),
    {
        self.accuracy_fix = accuracy_fix;
    }

    /// The spam bot, to change.
    pub fn get_spam_bot(&mut self) -> (r: &mut SpamBot)
        ensures
            *r == old(self).spam_bot,
            *final(self) == (ReplayHandler { spam_bot: *final(r), ..*old(self) }),
    {
        &mut self.spam_bot
    }
}

/// A replay file written for a replay of kind `k` (see
/// [`ReplayHandler::replay_file_data`]) is read back as of kind `k` (see
/// [`replay_file_kind`]): its first byte is a valid tag, and the only kind
/// with that tag is `k`.
pub proof fn replay_file_kind_round_trip(k: ReplayKind, serialised: Seq<u8>, r: ReplayKind)
    requires
        kind_tag(r) == (seq![kind_tag(k)] + serialised)[0],
    ensures
        (seq![kind_tag(k)] + serialised).len() >= 1,
        (seq![kind_tag(k)] + serialised)[0] <= 1,
        r == k,
{
}

/// Recording a button event and playing the recorded click back presses or
/// releases the button that was pressed or released, whatever the flip
/// setting: with it off, in a two-player level button `true` is player 1's
/// and button `false` player 2's; in a one-player level every event is
/// player 1's; and a press records a press.
pub proof fn recorded_clicks_replay_the_same_button(flip: bool, press: bool, button: bool)
    ensures
        action_for(recorded_click_type(true, flip, press, button), flip) == Some(ButtonAction { press, button }),
        (recorded_click_type(true, false, press, button) is Player1Down || recorded_click_type(
            true,
            false,
            press,
            button,
        ) is Player1Up) == button,
        recorded_click_type(false, flip, press, button) == (if press {
            ClickType::Player1Down
        } else {
            ClickType::Player1Up
        }),
        (recorded_click_type(true, flip, press, button) is Player1Down || recorded_click_type(
            true,
            flip,
            press,
            button,
        ) is Player2Down) == press,
{
}

/// An x-position replay places every event at player 1's x position,
/// whatever the frame, and a frame replay at the frame number, whatever the
/// position.
pub proof fn event_location_follows_replay_type(x_pos: u32, frame: u32)
    ensures
        location_for(ReplayType::XPos, x_pos, frame) == Location::XPos(x_pos),
        location_for(ReplayType::Frame, x_pos, frame) == Location::Frame(frame),
{
}

} // verus!
