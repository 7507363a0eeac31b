use vstd::prelude::*;

use crate::utils::IsNull;

verus! {

/// Offset of the player's horizontal position in a player object.
pub const POSITION_X_OFFSET: usize = 0x67C;

/// Offset of the player's vertical position in a player object.
pub const POSITION_Y_OFFSET: usize = 0x680;

/// Offset of the first of the six game-mode flags in a player object.
pub const GAME_MODE_FLAGS_OFFSET: usize = 0x638;

/// A player of the running level, given by its address in the game.
#[derive(Clone, Copy, Debug, PartialEq, Eq, Structural)]
pub struct PlayerObject {
    pub address: usize,
}

/// The vehicle a player is in.
#[derive(Clone, Copy, Debug, PartialEq, Eq, Structural)]
pub enum GameMode {
    Cube,
    Ship,
    UFO,
    Ball,
    Wave,
    Robot,
    Spider,
}

/// The game mode that six flags (ship, UFO, ball, wave, robot, spider, in
/// the game's order) select: the first flag set, or the cube where none is.
pub open spec fn game_mode_of_flags(flags: Seq<bool>) -> GameMode {
    if flags[0] {
        GameMode::Ship
    } else if flags[1] {
        GameMode::UFO
    } else if flags[2] {
        GameMode::Ball
    } else if flags[3] {
        GameMode::Wave
    } else if flags[4] {
        GameMode::Robot
    } else if flags[5] {
        GameMode::Spider
    } else {
        GameMode::Cube
    }
}

/// The index of the flag that selects `mode`; the cube has none.
pub open spec fn flag_index_of(mode: GameMode) -> int {
    match mode {
        GameMode::Cube => -1,
        GameMode::Ship => 0,
        GameMode::UFO => 1,
        GameMode::Ball => 2,
        GameMode::Wave => 3,
        GameMode::Robot => 4,
        GameMode::Spider => 5,
    }
}

impl GameMode {
    /// The game mode that six flags select (see [`game_mode_of_flags`]).
    pub fn from_flags(flags: &[bool; 6]) -> (r: GameMode)
        ensures
            r == game_mode_of_flags(flags@),
    {
        if flags[0] {
            GameMode::Ship
        } else if flags[1] {
            GameMode::UFO
        } else if flags[2] {
            GameMode::Ball
        } else if flags[3] {
            GameMode::Wave
        } else if flags[4] {
            GameMode::Robot
        } else if flags[5] {
            GameMode::Spider
        } else {
            GameMode::Cube
        }
    }

    /// The six flags that select this mode: only its own flag is set.
    pub fn flags(&self) -> (r: [bool; 6])
        ensures
            forall|i: int| 0 <= i < 6 ==> r@[i] == (i == flag_index_of(*self)),
    {
        [
            *self == GameMode::Ship,
            *self == GameMode::UFO,
            *self == GameMode::Ball,
            *self == GameMode::Wave,
            *self == GameMode::Robot,
            *self == GameMode::Spider,
        ]
    }
}

/// Writing a mode's flags and reading them back gives the mode.
pub proof fn game_mode_flags_round_trip(mode: GameMode, flags: Seq<bool>)
    requires
        flags.len() == 6,
        forall|i: int| 0 <= i < 6 ==> flags[i] == (i == flag_index_of(mode)),
    ensures
        game_mode_of_flags(flags) == mode,
{
}

impl PlayerObject {
    /// The player at `address`.
    pub fn from_address(address: usize) -> (r: Self)
        ensures
            r.address == address,
    {
        PlayerObject { address }
    }

    /// The addresses of the player's position, as `u32` or `f32`: x, then y.
    pub fn get_position(&self) -> (r: (usize, usize))
        requires
            self.address + POSITION_Y_OFFSET <= usize::MAX,
        ensures
            r.0 == self.address + POSITION_X_OFFSET,
            r.1 == self.address + POSITION_Y_OFFSET,
    {
        (self.address + POSITION_X_OFFSET, self.address + POSITION_Y_OFFSET)
    }

    /// The addresses of the player's `f32` position: x, then y.
    pub fn get_position_float(&self) -> (r: (usize, usize))
        requires
            self.address + POSITION_Y_OFFSET <= usize::MAX,
        ensures
            r.0 == self.address + POSITION_X_OFFSET,
            r.1 == self.address + POSITION_Y_OFFSET,
    {
        (self.address + POSITION_X_OFFSET, self.address + POSITION_Y_OFFSET)
    }

    /// The address of the player's `f64` horizontal acceleration.
    pub fn get_x_accel(&self) -> (r: usize)
        requires
            self.address + 0x518 <= usize::MAX,
        ensures
            r == self.address + 0x518,
    {
        self.address + 0x518
    }

    /// The address of the player's `f64` vertical acceleration.
    pub fn get_y_accel(&self) -> (r: usize)
        requires
            self.address + 0x628 <= usize::MAX,
        ensures
            r == self.address + 0x628,
    {
        self.address + 0x628
    }

    /// The address of the player's `f64` jump acceleration.
    pub fn get_jump_accel(&self) -> (r: usize)
        requires
            self.address + 0x520 <= usize::MAX,
        ensures
            r == self.address + 0x520,
    {
        self.address + 0x520
    }

    /// The address of the player's `bool` flag: the button is held.
    pub fn get_is_holding(&self) -> (r: usize)
        requires
            self.address + 0x611 <= usize::MAX,
        ensures
            r == self.address + 0x611,
    {
        self.address + 0x611
    }

    /// The address of the player's `bool` flag: the button was just pressed.
    pub fn get_has_just_held(&self) -> (r: usize)
        requires
            self.address + 0x612 <= usize::MAX,
        ensures
            r == self.address + 0x612,
    {
        self.address + 0x612
    }

    /// The address of the player's `bool` flag: the second button is held.
    pub fn get_is_holding2(&self) -> (r: usize)
        requires
            self.address + 0x613 <= usize::MAX,
        ensures
            r == self.address + 0x613,
    {
        self.address + 0x613
    }

    /// The address of the player's `bool` flag: the second button was just pressed.
    pub fn get_has_just_held2(&self) -> (r: usize)
        requires
            self.address + 0x614 <= usize::MAX,
        ensures
            r == self.address + 0x614,
    {
        self.address + 0x614
    }

    /// The address of the player's `bool` flag: the robot may jump.
    pub fn get_can_robot_jump(&self) -> (r: usize)
        requires
            self.address + 0x624 <= usize::MAX,
        ensures
            r == self.address + 0x624,
    {
        self.address + 0x624
    }

    /// The address of the player's `bool` flag: gravity is flipped.
    pub fn get_is_upside_down(&self) -> (r: usize)
        requires
            self.address + 0x63E <= usize::MAX,
        ensures
            r == self.address + 0x63E,
    {
        self.address + 0x63E
    }

    /// The address of the player's `bool` flag: the player stands on ground.
    pub fn get_is_on_ground(&self) -> (r: usize)
        requires
            self.address + 0x640 <= usize::MAX,
        ensures
            r == self.address + 0x640,
    {
        self.address + 0x640
    }

    /// The address of the player's `bool` flag: the player dashes.
    pub fn get_is_dashing(&self) -> (r: usize)
        requires
            self.address + 0x641 <= usize::MAX,
        ensures
            r == self.address + 0x641,
    {
        self.address + 0x641
    }

    /// The address of the player's `bool` flag: the player slides.
    pub fn get_is_sliding(&self) -> (r: usize)
        requires
            self.address + 0x660 <= usize::MAX,
        ensures
            r == self.address + 0x660,
    {
        self.address + 0x660
    }

    /// The address of the player's `bool` flag: the player rises.
    pub fn get_is_rising(&self) -> (r: usize)
        requires
            self.address + 0x661 <= usize::MAX,
        ensures
            r == self.address + 0x661,
    {
        self.address + 0x661
    }

    /// The address of the player's `bool` flag: a black orb is in use.
    pub fn get_black_orb(&self) -> (r: usize)
        requires
            self.address + 0x5FE <= usize::MAX,
        ensures
            r == self.address + 0x5FE,
    {
        self.address + 0x5FE
    }

    /// The address of the player's `bool` flag at offset 0x662.
    pub fn get_unk662(&self) -> (r: usize)
        requires
            self.address + 0x662 <= usize::MAX,
        ensures
            r == self.address + 0x662,
    {
        self.address + 0x662
    }

    /// The address of the player's `bool` flag at offset 0x630.
    pub fn get_unk630(&self) -> (r: usize)
        requires
            self.address + 0x630 <= usize::MAX,
        ensures
            r == self.address + 0x630,
    {
        self.address + 0x630
    }

    /// The address of the player's `bool` flag at offset 0x631.
    pub fn get_unk631(&self) -> (r: usize)
        requires
            self.address + 0x631 <= usize::MAX,
        ensures
            r == self.address + 0x631,
    {
        self.address + 0x631
    }

    /// The address of the player's `f32` vehicle size.
    pub fn get_vehicle_size(&self) -> (r: usize)
        requires
            self.address + 0x644 <= usize::MAX,
        ensures
            r == self.address + 0x644,
    {
        self.address + 0x644
    }

    /// The address of the player's `f32` player speed.
    pub fn get_player_speed(&self) -> (r: usize)
        requires
            self.address + 0x648 <= usize::MAX,
        ensures
            r == self.address + 0x648,
    {
        self.address + 0x648
    }

    /// The address of the player's `f32` rotation about x.
    pub fn get_rotation_x(&self) -> (r: usize)
        requires
            self.address + 0x20 <= usize::MAX,
        ensures
            r == self.address + 0x20,
    {
        self.address + 0x20
    }

    /// The address of the player's `f32` rotation about y.
    pub fn get_rotation_y(&self) -> (r: usize)
        requires
            self.address + 0x24 <= usize::MAX,
        ensures
            r == self.address + 0x24,
    {
        self.address + 0x24
    }

    /// The address of the game-mode flag with the given index (ship, UFO,
    /// ball, wave, robot, spider).
    pub fn game_mode_flag(&self, index: usize) -> (r: usize)
        requires
            index < 6,
            self.address + GAME_MODE_FLAGS_OFFSET + 6 <= usize::MAX,
        ensures
            r == self.address + GAME_MODE_FLAGS_OFFSET + index,
    {
        self.address + GAME_MODE_FLAGS_OFFSET + index
    }
}

impl IsNull for PlayerObject {
    open spec fn handle_address(&self) -> usize {
        self.address
    }

    fn is_null(&self) -> (r: bool) {
        self.address == 0
    }
}

impl From<PlayerObject> for usize {
    fn from(player_object: PlayerObject) -> (r: Self) {
        player_object.address
    }
}

impl vstd::std_specs::convert::FromSpecImpl<PlayerObject> for usize {
    open spec fn obeys_from_spec() -> bool {
        true
    }

    open spec fn from_spec(v: PlayerObject) -> Self {
        v.address
    }
}

impl From<usize> for PlayerObject {
    fn from(address: usize) -> (r: Self) {
        PlayerObject { address }
    }
}

impl vstd::std_specs::convert::FromSpecImpl<usize> for PlayerObject {
    open spec fn obeys_from_spec() -> bool {
        true
    }

    open spec fn from_spec(v: usize) -> Self {
        PlayerObject { address: v }
    }
}

} // verus!
