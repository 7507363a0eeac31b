use vstd::prelude::*;

use crate::utils::IsNull;

verus! {

/// An object of a level (an orb, a pad, a portal...), given by its address.
#[derive(Clone, Copy, Debug, PartialEq, Eq, Structural)]
pub struct GameObject {
    pub address: usize,
}

/// The settings of a level, given by their address.
#[derive(Clone, Copy, Debug, PartialEq, Eq, Structural)]
pub struct LevelSettings {
    pub address: usize,
}

/// The layer that plays a level, given by its address.
#[derive(Clone, Copy, Debug, PartialEq, Eq, Structural)]
pub struct PlayLayer {
    pub address: usize,
}

/// The game's manager object, given by its address.
#[derive(Clone, Copy, Debug, PartialEq, Eq, Structural)]
pub struct GameManager {
    pub address: usize,
}

impl GameObject {
    /// The object at `address`.
    pub fn from_address(address: usize) -> (r: Self)
        ensures
            r.address == address,
    {
        GameObject { address }
    }

    /// The address of the object's `bool` flag: player 1 has used it.
    pub fn activated(&self) -> (r: usize)
        requires
            self.address + 0x2CA <= usize::MAX,
        ensures
            r == self.address + 0x2CA,
    {
        self.address + 0x2CA
    }

    /// The address of the object's `bool` flag: player 2 has used it.
    pub fn activated_p2(&self) -> (r: usize)
        requires
            self.address + 0x2CB <= usize::MAX,
        ensures
            r == self.address + 0x2CB,
    {
        self.address + 0x2CB
    }
}

impl IsNull for GameObject {
    open spec fn handle_address(&self) -> usize {
        self.address
    }

    fn is_null(&self) -> (r: bool) {
        self.address == 0
    }
}

impl From<usize> for GameObject {
    fn from(address: usize) -> (r: Self) {
        GameObject { address }
    }
}

impl vstd::std_specs::convert::FromSpecImpl<usize> for GameObject {
    open spec fn obeys_from_spec() -> bool {
        true
    }

    open spec fn from_spec(v: usize) -> Self {
        GameObject { address: v }
    }
}

impl LevelSettings {
    /// The level settings at `address`.
    pub fn from_address(address: usize) -> (r: Self)
        ensures
            r.address == address,
    {
        LevelSettings { address }
    }

    /// The address of the `bool` flag: the level is played with two players.
    pub fn is_2player_address(&self) -> (r: usize)
        requires
            self.address + 0xFA <= usize::MAX,
        ensures
            r == self.address + 0xFA,
    {
        self.address + 0xFA
    }
}

impl IsNull for LevelSettings {
    open spec fn handle_address(&self) -> usize {
        self.address
    }

    fn is_null(&self) -> (r: bool) {
        self.address == 0
    }
}

impl From<usize> for LevelSettings {
    fn from(address: usize) -> (r: Self) {
        LevelSettings { address }
    }
}

impl vstd::std_specs::convert::FromSpecImpl<usize> for LevelSettings {
    open spec fn obeys_from_spec() -> bool {
        true
    }

    open spec fn from_spec(v: usize) -> Self {
        LevelSettings { address: v }
    }
}

impl PlayLayer {
    /// The play layer at `address`.
    pub fn from_address(address: usize) -> (r: Self)
        ensures
            r.address == address,
    {
        PlayLayer { address }
    }

    /// The address of the `bool` flag: the level is paused.
    pub fn is_paused(&self) -> (r: usize)
        requires
            self.address + 0x42B <= usize::MAX,
        ensures
            r == self.address + 0x42B,
    {
        self.address + 0x42B
    }

    /// The address of the `f64` time played in the level.
    pub fn time(&self) -> (r: usize)
        requires
            self.address + 0x450 <= usize::MAX,
        ensures
            r == self.address + 0x450,
    {
        self.address + 0x450
    }

    /// The address of the `bool` flag: the player has died.
    pub fn dead_address(&self) -> (r: usize)
        requires
            self.address + 0x39C <= usize::MAX,
        ensures
            r == self.address + 0x39C,
    {
        self.address + 0x39C
    }

    /// The address of the pointer to player 1.
    pub fn player1_address(&self) -> (r: usize)
        requires
            self.address + 0x224 <= usize::MAX,
        ensures
            r == self.address + 0x224,
    {
        self.address + 0x224
    }

    /// The address of the pointer to player 2.
    pub fn player2_address(&self) -> (r: usize)
        requires
            self.address + 0x228 <= usize::MAX,
        ensures
            r == self.address + 0x228,
    {
        self.address + 0x228
    }

    /// The address of the pointer to the level settings.
    pub fn level_settings_address(&self) -> (r: usize)
        requires
            self.address + 0x22C <= usize::MAX,
        ensures
            r == self.address + 0x22C,
    {
        self.address + 0x22C
    }

    /// The address of the `bool` flag: practice mode is on.
    pub fn is_practice_mode_address(&self) -> (r: usize)
        requires
            self.address + 0x495 <= usize::MAX,
        ensures
            r == self.address + 0x495,
    {
        self.address + 0x495
    }

    /// Whether the level counts as lost: the death flag is set and player 1
    /// is null or has left the start (its x position is not 0).
    pub fn is_dead_given(dead_flag: bool, player1_null: bool, player1_x_nonzero: bool) -> (r: bool)
        ensures
            r == (dead_flag && (player1_null || player1_x_nonzero)),
    {
        dead_flag && (player1_null || player1_x_nonzero)
    }
}

impl IsNull for PlayLayer {
    open spec fn handle_address(&self) -> usize {
        self.address
    }

    fn is_null(&self) -> (r: bool) {
        self.address == 0
    }
}

impl From<PlayLayer> for usize {
    fn from(handle: PlayLayer) -> (r: Self) {
        handle.address
    }
}

impl vstd::std_specs::convert::FromSpecImpl<PlayLayer> for usize {
    open spec fn obeys_from_spec() -> bool {
        true
    }

    open spec fn from_spec(v: PlayLayer) -> Self {
        v.address
    }
}

impl From<usize> for PlayLayer {
    fn from(address: usize) -> (r: Self) {
        PlayLayer { address }
    }
}

impl vstd::std_specs::convert::FromSpecImpl<usize> for PlayLayer {
    open spec fn obeys_from_spec() -> bool {
        true
    }

    open spec fn from_spec(v: usize) -> Self {
        PlayLayer { address: v }
    }
}

impl GameManager {
    /// The address of the pointer to the running play layer.
    pub fn play_layer_address(&self) -> (r: usize)
        requires
            self.address + 0x164 <= usize::MAX,
        ensures
            r == self.address + 0x164,
    {
        self.address + 0x164
    }
}

impl IsNull for GameManager {
    open spec fn handle_address(&self) -> usize {
        self.address
    }

    fn is_null(&self) -> (r: bool) {
        self.address == 0
    }
}

impl From<usize> for GameManager {
    fn from(address: usize) -> (r: Self) {
        GameManager { address }
    }
}

impl vstd::std_specs::convert::FromSpecImpl<usize> for GameManager {
    open spec fn obeys_from_spec() -> bool {
        true
    }

    open spec fn from_spec(v: usize) -> Self {
        GameManager { address: v }
    }
}

} // verus!
