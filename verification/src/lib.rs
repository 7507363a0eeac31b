//! Replay recording and playback logic of the OmegaBot game assistant,
//! with the game-memory layout, hack patch tables and the bot's state
//! machines, verified with Verus.

pub mod c_api;
pub mod cocos2d;
pub mod full_replay;
pub mod gd;
pub mod hack;
pub mod hack_handler;
pub mod message;
pub mod mutex_count;
pub mod omegabot;
pub mod ordering;
pub mod patch;
pub mod player_object;
pub mod practice_fix;
pub mod replay;
pub mod replay_handler;
pub mod spam_bot;
pub mod utils;
