use vstd::prelude::*;

use crate::replay::{Click, ClickType, Location, ReplayType};

verus! {

/// The replay type as the C interface passes it.
#[derive(Clone, Copy, Debug, PartialEq, Eq, Structural)]
pub enum CReplayType {
    XPos,
    Frame,
}

/// A location as the C interface passes it: its kind and its number.
#[derive(Clone, Copy, Debug, PartialEq, Eq, Structural)]
pub struct CLocation {
    pub location_type: CReplayType,
    pub location: u32,
}

/// A click type as the C interface passes it; a frame-rate change carries its
/// rate beside it, in [`CClick`].
#[derive(Clone, Copy, Debug, PartialEq, Eq, Structural)]
pub enum CClickType {
    NoClick,
    FpsChange,
    Player1Down,
    Player1Up,
    Player2Down,
    Player2Up,
}

/// A click as the C interface passes it. `fps` is the bit pattern of the
/// `f32` rate of a frame-rate change, and 0 for any other click.
#[derive(Clone, Copy, Debug, PartialEq, Eq, Structural)]
pub struct CClick {
    pub location: CLocation,
    pub click_type: CClickType,
    pub fps: u32,
}

pub open spec fn c_replay_type_of(t: ReplayType) -> CReplayType {
    match t {
        ReplayType::XPos => CReplayType::XPos,
        ReplayType::Frame => CReplayType::Frame,
    }
}

pub open spec fn replay_type_of(t: CReplayType) -> ReplayType {
    match t {
        CReplayType::XPos => ReplayType::XPos,
        CReplayType::Frame => ReplayType::Frame,
    }
}

pub open spec fn c_location_of(l: Location) -> CLocation {
    match l {
        Location::XPos(x) => CLocation { location_type: CReplayType::XPos, location: x },
        Location::Frame(f) => CLocation { location_type: CReplayType::Frame, location: f },
    }
}

pub open spec fn location_of(l: CLocation) -> Location {
    match l.location_type {
        CReplayType::XPos => Location::XPos(l.location),
        CReplayType::Frame => Location::Frame(l.location),
    }
}

/// The C click type of a click type other than a frame-rate change.
pub open spec fn c_click_type_of(t: ClickType) -> CClickType {
    match t {
        ClickType::NoClick => CClickType::NoClick,
        ClickType::FpsChange(_) => CClickType::FpsChange,
        ClickType::Player1Down => CClickType::Player1Down,
        ClickType::Player1Up => CClickType::Player1Up,
        ClickType::Player2Down => CClickType::Player2Down,
        ClickType::Player2Up => CClickType::Player2Up,
    }
}

/// The click type of a C click type other than a frame-rate change.
pub open spec fn click_type_of(t: CClickType) -> ClickType {
    match t {
        CClickType::NoClick => ClickType::NoClick,
        CClickType::FpsChange => ClickType::NoClick,
        CClickType::Player1Down => ClickType::Player1Down,
        CClickType::Player1Up => ClickType::Player1Up,
        CClickType::Player2Down => ClickType::Player2Down,
        CClickType::Player2Up => ClickType::Player2Up,
    }
}

pub open spec fn c_click_of(c: Click) -> CClick {
    match c.click_type {
        ClickType::FpsChange(fps) => CClick {
            location: c_location_of(c.location),
            click_type: CClickType::FpsChange,
            fps,
        },
        _ => CClick {
            location: c_location_of(c.location),
            click_type: c_click_type_of(c.click_type),
            fps: 0,
        },
    }
}

pub open spec fn click_of(c: CClick) -> Click {
    match c.click_type {
        CClickType::FpsChange => Click {
            location: location_of(c.location),
            click_type: ClickType::FpsChange(c.fps),
        },
        _ => Click { location: location_of(c.location), click_type: click_type_of(c.click_type) },
    }
}

impl From<ReplayType> for CReplayType {
    fn from(replay_type: ReplayType) -> (r: Self) {
        match replay_type {
            ReplayType::XPos => CReplayType::XPos,
            ReplayType::Frame => CReplayType::Frame,
        }
    }
}

impl vstd::std_specs::convert::FromSpecImpl<ReplayType> for CReplayType {
    open spec fn obeys_from_spec() -> bool {
        true
    }

    open spec fn from_spec(v: ReplayType) -> Self {
        c_replay_type_of(v)
    }
}

impl From<CReplayType> for ReplayType {
    fn from(replay_type: CReplayType) -> (r: Self) {
        match replay_type {
            CReplayType::XPos => ReplayType::XPos,
            CReplayType::Frame => ReplayType::Frame,
        }
    }
}

impl vstd::std_specs::convert::FromSpecImpl<CReplayType> for ReplayType {
    open spec fn obeys_from_spec() -> bool {
        true
    }

    open spec fn from_spec(v: CReplayType) -> Self {
        replay_type_of(v)
    }
}

impl From<Location> for CLocation {
    fn from(location: Location) -> (r: Self) {
        match location {
            Location::XPos(x) => CLocation { location_type: CReplayType::XPos, location: x },
            Location::Frame(f) => CLocation { location_type: CReplayType::Frame, location: f },
        }
    }
}

impl vstd::std_specs::convert::FromSpecImpl<Location> for CLocation {
    open spec fn obeys_from_spec() -> bool {
        true
    }

    open spec fn from_spec(v: Location) -> Self {
        c_location_of(v)
    }
}

impl From<CLocation> for Location {
    fn from(location: CLocation) -> (r: Self) {
        match location.location_type {
            CReplayType::XPos => Location::XPos(location.location),
            CReplayType::Frame => Location::Frame(location.location),
        }
    }
}

impl vstd::std_specs::convert::FromSpecImpl<CLocation> for Location {
    open spec fn obeys_from_spec() -> bool {
        true
    }

    open spec fn from_spec(v: CLocation) -> Self {
        location_of(v)
    }
}

impl CClickType {
    /// The C click type of a click type; a frame-rate change has no C click
    /// type of its own (it travels in a [`CClick`]).
    pub fn from_click_type(click_type: ClickType) -> (r: CClickType)
        requires
            !(click_type is FpsChange),
        ensures
            r == c_click_type_of(click_type),
    {
        match click_type {
            ClickType::NoClick => CClickType::NoClick,
            ClickType::Player1Down => CClickType::Player1Down,
            ClickType::Player1Up => CClickType::Player1Up,
            ClickType::Player2Down => CClickType::Player2Down,
            ClickType::Player2Up => CClickType::Player2Up,
            ClickType::FpsChange(_) => CClickType::FpsChange,
        }
    }

    /// The click type of a C click type other than a frame-rate change.
    pub fn to_click_type(self) -> (r: ClickType)
        requires
            !(self is FpsChange),
        ensures
            r == click_type_of(self),
    {
        match self {
            CClickType::NoClick => ClickType::NoClick,
            CClickType::Player1Down => ClickType::Player1Down,
            CClickType::Player1Up => ClickType::Player1Up,
            CClickType::Player2Down => ClickType::Player2Down,
            CClickType::Player2Up => ClickType::Player2Up,
            CClickType::FpsChange => ClickType::NoClick,
        }
    }
}

impl From<Click> for CClick {
    fn from(click: Click) -> (r: Self) {
        match click.click_type {
            ClickType::FpsChange(fps) => CClick {
                location: CLocation::from(click.location),
                click_type: CClickType::FpsChange,
                fps,
            },
            _ => CClick {
                location: CLocation::from(click.location),
                click_type: CClickType::from_click_type(click.click_type),
                fps: 0,
            },
        }
    }
}

impl vstd::std_specs::convert::FromSpecImpl<Click> for CClick {
    open spec fn obeys_from_spec() -> bool {
        true
    }

    open spec fn from_spec(v: Click) -> Self {
        c_click_of(v)
    }
}

impl From<CClick> for Click {
    fn from(click: CClick) -> (r: Self) {
        match click.click_type {
            CClickType::FpsChange => Click {
                location: Location::from(click.location),
                click_type: ClickType::FpsChange(click.fps),
            },
            _ => Click {
                location: Location::from(click.location),
                click_type: click.click_type.to_click_type(),
            },
        }
    }
}

impl vstd::std_specs::convert::FromSpecImpl<CClick> for Click {
    open spec fn obeys_from_spec() -> bool {
        true
    }

    open spec fn from_spec(v: CClick) -> Self {
        click_of(v)
    }
}

/// A replay type survives the trip through the C interface and back.
pub proof fn replay_type_round_trip(t: ReplayType)
    ensures
        replay_type_of(c_replay_type_of(t)) == t,
{
}

/// A C replay type survives the trip into a replay type and back.
pub proof fn c_replay_type_round_trip(t: CReplayType)
    ensures
        c_replay_type_of(replay_type_of(t)) == t,
{
}

/// A location survives the trip through the C interface and back.
pub proof fn location_round_trip(l: Location)
    ensures
        location_of(c_location_of(l)) == l,
{
}

/// A C location survives the trip into a location and back.
pub proof fn c_location_round_trip(l: CLocation)
    ensures
        c_location_of(location_of(l)) == l,
{
}

/// Every click survives the trip through the C interface and back.
pub proof fn click_round_trip(c: Click)
    ensures
        click_of(c_click_of(c)) == c,
{
}

/// A C click survives the trip into a click and back when its `fps` is 0
/// unless it is a frame-rate change.
pub proof fn c_click_round_trip(c: CClick)
    requires
        !(c.click_type is FpsChange) ==> c.fps == 0,
    ensures
        c_click_of(click_of(c)) == c,
{
}

} // verus!
