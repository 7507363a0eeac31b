use vstd::prelude::*;

use crate::replay::ClickType;

verus! {

/// What the spam bot is doing.
#[derive(Clone, Copy, Debug, PartialEq, Eq, Structural)]
pub enum SpamBotState {
    Off,
    StraightFly,
    Spam,
}

/// Which players the spam bot acts for.
#[derive(Clone, Copy, Debug, PartialEq, Eq, Structural)]
pub enum SpamBotPlayer {
    Player1,
    Player2,
    Both,
}

/// A bot that clicks for the player: it either keeps a ship flying straight
/// or presses and releases the button at a fixed rhythm. The start heights
/// and the accuracy are `f32` bit patterns.
pub struct SpamBot {
    pub state: SpamBotState,
    pub spam_player: SpamBotPlayer,
    pub straight_fly_player: SpamBotPlayer,
    pub start_y_p1: u32,
    pub start_y_p2: u32,
    pub y_accuracy: u32,
    pub spam_press: u32,
    pub spam_release: u32,
    pub frame: u32,
}

/// The bit pattern of the `f32` value 40.0, the default straight-fly accuracy.
pub const DEFAULT_Y_ACCURACY: u32 = 0x4220_0000;

impl Default for SpamBot {
    fn default() -> (r: Self)
        ensures
            r.state == SpamBotState::Off,
            r.spam_player == SpamBotPlayer::Player1,
            r.straight_fly_player == SpamBotPlayer::Player1,
            r.start_y_p1 == 0,
            r.start_y_p2 == 0,
            r.y_accuracy == DEFAULT_Y_ACCURACY,
            r.spam_press == 5,
            r.spam_release == 5,
            r.frame == 0,
    {
        SpamBot {
            state: SpamBotState::Off,
            spam_player: SpamBotPlayer::Player1,
            straight_fly_player: SpamBotPlayer::Player1,
            start_y_p1: 0,
            start_y_p2: 0,
            y_accuracy: DEFAULT_Y_ACCURACY,
            spam_press: 5,
            spam_release: 5,
            frame: 0,
        }
    }
}

/// The selection includes player 1.
pub open spec fn includes_p1(p: SpamBotPlayer) -> bool {
    p is Player1 || p is Both
}

/// The selection includes player 2.
pub open spec fn includes_p2(p: SpamBotPlayer) -> bool {
    p is Player2 || p is Both
}

/// The clicks that flip the button state `holding` of the selected players:
/// player 1's first.
pub open spec fn toggles(player1: bool, player2: bool, holding: bool) -> Seq<ClickType> {
    (if player1 {
        seq![if holding { ClickType::Player1Up } else { ClickType::Player1Down }]
    } else {
        Seq::<ClickType>::empty()
    }) + (if player2 {
        seq![if holding { ClickType::Player2Up } else { ClickType::Player2Down }]
    } else {
        Seq::<ClickType>::empty()
    })
}

/// A straight-fly decision for player 1, as a decision for player 2.
pub open spec fn for_player2(c: ClickType) -> ClickType {
    match c {
        ClickType::Player1Down => ClickType::Player2Down,
        ClickType::Player1Up => ClickType::Player2Up,
        _ => c,
    }
}

/// The releases that stopping `bot` gives: for the players it acted for
/// (player 1 only outside two-player levels) whose button is held; none when
/// the bot is off or no level runs.
pub open spec fn stop_releases(
    bot: SpamBot,
    in_level: bool,
    is_2player: bool,
    p1_holding: bool,
    p2_holding: bool,
) -> Seq<ClickType> {
    let acting = if bot.state is StraightFly {
        bot.straight_fly_player
    } else {
        bot.spam_player
    };
    let player = if is_2player {
        acting
    } else {
        SpamBotPlayer::Player1
    };
    if bot.state is Off || !in_level {
        Seq::<ClickType>::empty()
    } else {
        (if includes_p1(player) && p1_holding {
            seq![ClickType::Player1Up]
        } else {
            Seq::<ClickType>::empty()
        }) + (if includes_p2(player) && p2_holding {
            seq![ClickType::Player2Up]
        } else {
            Seq::<ClickType>::empty()
        })
    }
}

fn push_toggles(clicks: &mut Vec<ClickType>, player1: bool, player2: bool, holding: bool)
    ensures
        final(clicks)@ == old(clicks)@ + toggles(player1, player2, holding),
{
    let ghost start = clicks@;
    if player1 {
        clicks.push(if holding { ClickType::Player1Up } else { ClickType::Player1Down });
    }
    if player2 {
        clicks.push(if holding { ClickType::Player2Up } else { ClickType::Player2Down });
    }
    assert(clicks@ =~= start + toggles(player1, player2, holding));
}

impl SpamBot {
    /// The clicks for one frame. When flying straight, `p1_fly` and `p2_fly`
    /// are the per-player decisions (worked out from the players' heights,
    /// as for player 1); when spamming, `is_2player` and the players' held
    /// buttons decide. A frame counter paces the spam: once it reaches the
    /// press (while held) or release (while not held) length, the selected
    /// players' buttons flip, and flip back at once if the other length is 0.
    pub fn update(
        &mut self,
        is_2player: bool,
        p1_holding: bool,
        p2_holding: bool,
        p1_fly: ClickType,
        p2_fly: ClickType,
    ) -> (r: Vec<ClickType>)
        requires
            old(self).state is Spam ==> old(self).frame < u32::MAX,
        ensures
            final(self).state == old(self).state,
            final(self).spam_player == old(self).spam_player,
            final(self).straight_fly_player == old(self).straight_fly_player,
            final(self).start_y_p1 == old(self).start_y_p1,
            final(self).start_y_p2 == old(self).start_y_p2,
            final(self).y_accuracy == old(self).y_accuracy,
            final(self).spam_press == old(self).spam_press,
            final(self).spam_release == old(self).spam_release,
            old(self).state is Off ==> r@ == Seq::<ClickType>::empty() && final(self).frame == old(self).frame,
            old(self).state is StraightFly ==> {
                &&& final(self).frame == old(self).frame
                &&& r@ == (if includes_p1(old(self).straight_fly_player) {
                    seq![p1_fly]
                } else {
                    Seq::<ClickType>::empty()
                }) + (if includes_p2(old(self).straight_fly_player) {
                    seq![for_player2(p2_fly)]
                } else {
                    Seq::<ClickType>::empty()
                })
            },
            old(self).state is Spam ==> {
                let player1 = includes_p1(old(self).spam_player) || !is_2player;
                let player2 = includes_p2(old(self).spam_player) && is_2player;
                let holding = if player1 { p1_holding } else { p2_holding };
                let frame = old(self).frame + 1;
                let due = if holding { old(self).spam_press } else { old(self).spam_release };
                let other = if holding { old(self).spam_release } else { old(self).spam_press };
                if frame >= due {
                    &&& final(self).frame == 0
                    &&& r@ == toggles(player1, player2, holding) + (if other == 0 {
                        toggles(player1, player2, !holding)
                    } else {
                        Seq::<ClickType>::empty()
                    })
                } else {
                    &&& final(self).frame == frame
                    &&& r@ == Seq::<ClickType>::empty()
                }
            },
    {
        let mut clicks: Vec<ClickType> = Vec::new();
        match self.state {
            SpamBotState::Off => {},
            SpamBotState::StraightFly => {
                if matches!(self.straight_fly_player, SpamBotPlayer::Player1 | SpamBotPlayer::Both) {
                    clicks.push(p1_fly);
                }
                if matches!(self.straight_fly_player, SpamBotPlayer::Player2 | SpamBotPlayer::Both) {
                    clicks.push(
                        match p2_fly {
                            ClickType::Player1Down => ClickType::Player2Down,
                            ClickType::Player1Up => ClickType::Player2Up,
                            _ => p2_fly,
                        },
                    );
                }
                proof {
                    assert(clicks@ =~= (if includes_p1(self.straight_fly_player) {
                        seq![p1_fly]
                    } else {
                        Seq::<ClickType>::empty()
                    }) + (if includes_p2(self.straight_fly_player) {
                        seq![for_player2(p2_fly)]
                    } else {
                        Seq::<ClickType>::empty()
                    }));
                }
            },
            SpamBotState::Spam => {
                self.frame += 1;
                let player1 = matches!(self.spam_player, SpamBotPlayer::Player1 | SpamBotPlayer::Both)
                    || !is_2player;
                let player2 = matches!(self.spam_player, SpamBotPlayer::Player2 | SpamBotPlayer::Both)
                    && is_2player;
                let holding = if player1 {
                    p1_holding
                } else {
                    p2_holding
                };
                if self.frame >= if holding {
                    self.spam_press
                } else {
                    self.spam_release
                } {
                    self.frame = 0;
                    push_toggles(&mut clicks, player1, player2, holding);
                    if if holding {
                        self.spam_release
                    } else {
                        self.spam_press
                    } == 0 {
                        push_toggles(&mut clicks, player1, player2, !holding);
                    } else {
                        assert(clicks@ =~= toggles(player1, player2, holding) + Seq::<
                            ClickType,
                        >::empty());
                    }
                }
            },
        }
        clicks
    }

    /// Starts flying straight at the given start heights of the two players;
    /// `None` (no level running, or a player missing) leaves the bot as it is.
    pub fn start_straight_fly(&mut self, start_heights: Option<(u32, u32)>)
        ensures
            start_heights is None ==> *final(self) == *old(self),
            start_heights is Some ==> {
                &&& final(self).state == SpamBotState::StraightFly
                &&& final(self).start_y_p1 == start_heights.unwrap().0
                &&& final(self).start_y_p2 == start_heights.unwrap().1
                &&& final(self).frame == old(self).frame
                &&& final(self).spam_player == old(self).spam_player
                &&& final(self).straight_fly_player == old(self).straight_fly_player
                &&& final(self).y_accuracy == old(self).y_accuracy
                &&& final(self).spam_press == old(self).spam_press
                &&& final(self).spam_release == old(self).spam_release
            },
    {
        if let Some((y1, y2)) = start_heights {
            self.start_y_p1 = y1;
            self.start_y_p2 = y2;
            self.state = SpamBotState::StraightFly;
        }
    }

    /// Starts spamming from frame 0, when a level is running.
    pub fn start_spam(&mut self, in_level: bool)
        ensures
            !in_level ==> *final(self) == *old(self),
            in_level ==> *final(self) == (SpamBot {
                state: SpamBotState::Spam,
                frame: 0,
                ..*old(self)
            }),
    {
        if in_level {
            self.frame = 0;
            self.state = SpamBotState::Spam;
        }
    }

    /// Stops the bot and gives the releases for the buttons it left held:
    /// those of the players it acted for (player 1 only outside two-player
    /// levels) whose button is held. Nothing is released when the bot was
    /// off or no level runs.
    pub fn stop(&mut self, in_level: bool, is_2player: bool, p1_holding: bool, p2_holding: bool) -> (r: Vec<ClickType>)
        ensures
            *final(self) == (SpamBot { state: SpamBotState::Off, ..*old(self) }),
            r@ == stop_releases(*old(self), in_level, is_2player, p1_holding, p2_holding),
    {
        let mut clicks: Vec<ClickType> = Vec::new();
        if !matches!(self.state, SpamBotState::Off) && in_level {
            let mut player = match self.state {
                SpamBotState::StraightFly => self.straight_fly_player,
                _ => self.spam_player,
            };
            if !is_2player {
                player = SpamBotPlayer::Player1;
            }
            if matches!(player, SpamBotPlayer::Player1 | SpamBotPlayer::Both) && p1_holding {
                clicks.push(ClickType::Player1Up);
            }
            if matches!(player, SpamBotPlayer::Player2 | SpamBotPlayer::Both) && p2_holding {
                clicks.push(ClickType::Player2Up);
            }
            proof {
                assert(clicks@ =~= (if includes_p1(player) && p1_holding {
                    seq![ClickType::Player1Up]
                } else {
                    Seq::<ClickType>::empty()
                }) + (if includes_p2(player) && p2_holding {
                    seq![ClickType::Player2Up]
                } else {
                    Seq::<ClickType>::empty()
                }));
            }
        }
        self.state = SpamBotState::Off;
        clicks
    }

    /// Whether the bot is on.
    pub fn is_running(&self) -> (r: bool)
        ensures
            r == !(self.state is Off),
    {
        !matches!(self.state, SpamBotState::Off)
    }

    /// Whether the bot flies straight.
    pub fn is_straight_flying(&self) -> (r: bool)
        ensures
            r == (self.state is StraightFly),
    {
        matches!(self.state, SpamBotState::StraightFly)
    }

    /// Whether the bot spams.
    pub fn is_spamming(&self) -> (r: bool)
        ensures
            r == (self.state is Spam),
    {
        matches!(self.state, SpamBotState::Spam)
    }
}

} // verus!
