use std::cmp::Ordering;
use vstd::prelude::*;
use vstd::std_specs::cmp::PartialOrdSpecImpl;

use crate::ordering::{
    all_same_kind, is_stable_sort_of, sorted_by_location, stable_sort_clicks, stable_sort_is_permutation,
};

verus! {

/// Where a click happens: at a horizontal position of the player, or at a frame number.
#[derive(Clone, Copy, Debug, PartialEq, Eq, Structural)]
pub enum Location {
    XPos(u32),
    Frame(u32),
}

/// The number a location carries.
pub open spec fn loc_value(l: Location) -> u32 {
    match l {
        Location::XPos(x) => x,
        Location::Frame(f) => f,
    }
}

/// Two locations are comparable only when they are of the same kind.
pub open spec fn same_kind(a: Location, b: Location) -> bool {
    (a is XPos && b is XPos) || (a is Frame && b is Frame)
}

/// `a < b` in the partial order of locations.
pub open spec fn loc_lt(a: Location, b: Location) -> bool {
    same_kind(a, b) && loc_value(a) < loc_value(b)
}

/// `a <= b` in the partial order of locations.
pub open spec fn loc_le(a: Location, b: Location) -> bool {
    same_kind(a, b) && loc_value(a) <= loc_value(b)
}

/// `a >= b` in the partial order of locations.
pub open spec fn loc_ge(a: Location, b: Location) -> bool {
    same_kind(a, b) && loc_value(a) >= loc_value(b)
}

/// The clicks that lie strictly before `location`.
pub open spec fn lies_before(location: Location) -> spec_fn(Click) -> bool {
    |c: Click| loc_lt(c.location, location)
}

impl Location {
    /// The number this location carries.
    pub fn value(&self) -> (r: u32)
        ensures
            r == loc_value(*self),
    {
        match self {
            Location::XPos(x) => *x,
            Location::Frame(f) => *f,
        }
    }

    /// Whether `self` and `other` are of the same kind.
    pub fn same_kind_as(&self, other: &Location) -> (r: bool)
        ensures
            r == same_kind(*self, *other),
    {
        match (self, other) {
            (Location::XPos(_), Location::XPos(_)) => true,
            (Location::Frame(_), Location::Frame(_)) => true,
            _ => false,
        }
    }

    /// `self < other`; false for locations of different kinds.
    pub fn less_than(&self, other: &Location) -> (r: bool)
        ensures
            r == loc_lt(*self, *other),
    {
        self.same_kind_as(other) && self.value() < other.value()
    }

    /// `self >= other`; false for locations of different kinds.
    pub fn greater_or_equal(&self, other: &Location) -> (r: bool)
        ensures
            r == loc_ge(*self, *other),
    {
        self.same_kind_as(other) && self.value() >= other.value()
    }

    /// `self <= other`; false for locations of different kinds.
    pub fn less_or_equal(&self, other: &Location) -> (r: bool)
        ensures
            r == loc_le(*self, *other),
    {
        self.same_kind_as(other) && self.value() <= other.value()
    }
}

impl PartialOrd for Location {
    /// Locations of one kind compare by their numbers; locations of
    /// different kinds do not compare.
    fn partial_cmp(&self, other: &Location) -> (r: Option<Ordering>) {
        match (self, other) {
            (Location::XPos(x), Location::XPos(y)) | (Location::Frame(x), Location::Frame(y)) => {
                if *x < *y {
                    Some(Ordering::Less)
                } else if *x == *y {
                    Some(Ordering::Equal)
                } else {
                    Some(Ordering::Greater)
                }
            },
            _ => None,
        }
    }
}

impl PartialOrdSpecImpl for Location {
    open spec fn obeys_partial_cmp_spec() -> bool {
        true
    }

    open spec fn partial_cmp_spec(&self, other: &Location) -> Option<Ordering> {
        if !same_kind(*self, *other) {
            None
        } else if loc_value(*self) < loc_value(*other) {
            Some(Ordering::Less)
        } else if loc_value(*self) == loc_value(*other) {
            Some(Ordering::Equal)
        } else {
            Some(Ordering::Greater)
        }
    }
}



/// The `f32` with bit pattern `a` is a NaN: all exponent bits set and a
/// nonzero fraction.
pub open spec fn is_nan_bits(a: u32) -> bool {
    a & 0x7F80_0000u32 == 0x7F80_0000u32 && a & 0x007F_FFFFu32 != 0
}

/// The `f32` values with bit patterns `a` and `b` are equal as floats:
/// neither is a NaN, and the patterns agree or both are zeros (`+0.0` equals
/// `-0.0`).
pub open spec fn same_rate(a: u32, b: u32) -> bool {
    &&& !is_nan_bits(a)
    &&& !is_nan_bits(b)
    &&& (a == b || (a & 0x7FFF_FFFFu32 == 0 && b & 0x7FFF_FFFFu32 == 0))
}

/// Whether the frame rates with bit patterns `a` and `b` are equal as `f32`
/// values (see [`same_rate`]).
pub fn rates_equal(a: u32, b: u32) -> (r: bool)
    ensures
        r == same_rate(a, b),
{
    let a_nan = a & 0x7F80_0000u32 == 0x7F80_0000u32 && a & 0x007F_FFFFu32 != 0;
    let b_nan = b & 0x7F80_0000u32 == 0x7F80_0000u32 && b & 0x007F_FFFFu32 != 0;
    !a_nan && !b_nan && (a == b || (a & 0x7FFF_FFFFu32 == 0 && b & 0x7FFF_FFFFu32 == 0))
}

/// What a click does. A frame-rate change carries the new rate as the bit
/// pattern of its `f32` value.
#[derive(Clone, Copy, Debug, PartialEq, Eq, Structural)]
pub enum ClickType {
    NoClick,
    FpsChange(u32),
    Player1Down,
    Player1Up,
    Player2Down,
    Player2Up,
}

/// One recorded input.
#[derive(Clone, Copy, Debug, PartialEq, Eq, Structural)]
pub struct Click {
    pub location: Location,
    pub click_type: ClickType,
}

/// Whether a replay is timed by horizontal position or by frame number.
#[derive(Clone, Copy, Debug, PartialEq, Eq, Structural)]
pub enum ReplayType {
    XPos,
    Frame,
}

/// A location is of the kind a replay of type `t` records.
pub open spec fn kind_matches(l: Location, t: ReplayType) -> bool {
    match l {
        Location::XPos(_) => t is XPos,
        Location::Frame(_) => t is Frame,
    }
}

/// The frame rate in force after `s`: that of the last frame-rate change in
/// `s`, or `init` where `s` holds none.
pub open spec fn last_fps(s: Seq<Click>, init: u32) -> u32
    decreases s.len(),
{
    if s.len() == 0 {
        init
    } else {
        match s.last().click_type {
            ClickType::FpsChange(f) => f,
            _ => last_fps(s.drop_last(), init),
        }
    }
}

/// A click of the given player's button: press or release.
pub open spec fn is_player_click(t: ClickType, player2: bool) -> bool {
    if player2 {
        t is Player2Down || t is Player2Up
    } else {
        t is Player1Down || t is Player1Up
    }
}

/// Playback over `cs` moved from click `start` at frame rate `fps0` to click
/// `end` at frame rate `fps1`, handing out `handed`: every click from `start`
/// on that is due at `location`, up to the first that is not.
pub open spec fn advanced_over(
    cs: Seq<Click>,
    start: int,
    fps0: u32,
    location: Location,
    end: int,
    fps1: u32,
    handed: Seq<Click>,
) -> bool {
    if start >= cs.len() {
        &&& handed == Seq::<Click>::empty()
        &&& end == start
        &&& fps1 == fps0
    } else {
        &&& start <= end <= cs.len()
        &&& forall|k: int| start <= k < end ==> loc_le(#[trigger] cs[k].location, location)
        &&& end < cs.len() ==> !loc_le(cs[end].location, location)
        &&& handed == cs.subrange(start, end)
        &&& fps1 == last_fps(handed, fps0)
    }
}

/// `n` is `o` restarted from `location` (see [`Replay::reset`]).
pub open spec fn reset_from(o: Replay, n: Replay, location: Location, wipe: bool) -> bool {
    &&& n.initial_fps == o.initial_fps
    &&& n.replay_type == o.replay_type
    &&& wipe ==> {
        &&& n.clicks@ == o.clicks@.filter(lies_before(location))
        &&& n.current_click == o.current_click
        &&& n.current_fps == last_fps(n.clicks@, o.initial_fps)
    }
    &&& !wipe ==> n.clicks@ == o.clicks@
    &&& !wipe && (o.clicks@.len() == 0 || loc_value(location) == 0) ==> {
        &&& n.current_click == 0
        &&& n.current_fps == o.initial_fps
    }
    &&& !wipe && o.clicks@.len() > 0 && loc_value(location) != 0 ==> {
        let cs = o.clicks@;
        let cc = n.current_click as int;
        &&& cc <= o.current_click
        &&& forall|j: int| cc < j <= o.current_click ==> loc_ge(#[trigger] cs[j].location, location)
        &&& cc > 0 ==> !loc_ge(cs[cc].location, location)
        &&& n.current_fps == last_fps(cs.take(cc), o.initial_fps)
    }
}

/// The precondition of restarting `r` from `location`: the location is of
/// the replay's kind, and a rewinding playback position lies on a click.
pub open spec fn can_reset(r: Replay, location: Location, wipe: bool) -> bool {
    &&& kind_matches(location, r.replay_type)
    &&& !wipe && r.clicks@.len() > 0 && loc_value(location) != 0 ==> r.current_click == 0
        || r.current_click < r.clicks@.len()
}

/// A press or release of either player's button.
pub open spec fn is_button(t: ClickType) -> bool {
    t is Player1Down || t is Player1Up || t is Player2Down || t is Player2Up
}

/// The type of the last button click in `s`, if any.
pub open spec fn last_button(s: Seq<Click>) -> Option<ClickType>
    decreases s.len(),
{
    if s.len() == 0 {
        None
    } else if is_button(s.last().click_type) {
        Some(s.last().click_type)
    } else {
        last_button(s.drop_last())
    }
}

/// `s` without empty clicks and without button clicks that repeat the type
/// of the button click before them; frame-rate changes are all kept.
pub open spec fn cleaned(s: Seq<Click>) -> Seq<Click>
    decreases s.len(),
{
    if s.len() == 0 {
        s
    } else {
        let c = s.last();
        let rest = cleaned(s.drop_last());
        if c.click_type is FpsChange || (is_button(c.click_type) && last_button(s.drop_last())
            != Some(c.click_type)) {
            rest.push(c)
        } else {
            rest
        }
    }
}

/// A click that does something: not an empty click.
pub open spec fn is_input(c: Click) -> bool {
    !(c.click_type is NoClick)
}

/// The click as merged into another replay: with `force_player2`, player 1's
/// presses and releases become player 2's.
pub open spec fn retarget(c: Click, force_player2: bool) -> Click {
    if force_player2 {
        match c.click_type {
            ClickType::Player1Down => Click { location: c.location, click_type: ClickType::Player2Down },
            ClickType::Player1Up => Click { location: c.location, click_type: ClickType::Player2Up },
            _ => c,
        }
    } else {
        c
    }
}

/// The clicks that merging `s` into another replay adds: the non-empty ones,
/// retargeted.
pub open spec fn merged_clicks(s: Seq<Click>, force_player2: bool) -> Seq<Click> {
    s.filter(|c: Click| is_input(c)).map_values(|c: Click| retarget(c, force_player2))
}

/// A recorded run: the clicks in order, the position of playback in them, and
/// the frame rates (as `f32` bit patterns) at the start and at the current
/// point of playback.
pub struct Replay {
    pub initial_fps: u32,
    pub current_fps: u32,
    pub replay_type: ReplayType,
    pub current_click: usize,
    pub clicks: Vec<Click>,
}

/// The replay of clicks (as opposed to a full frame-by-frame replay).
pub type StandardReplay = Replay;

impl ReplayType {
    /// Whether a location of kind `l` belongs in a replay of this type.
    pub fn accepts(&self, l: &Location) -> (r: bool)
        ensures
            r == kind_matches(*l, *self),
    {
        match (l, self) {
            (Location::XPos(_), ReplayType::XPos) => true,
            (Location::Frame(_), ReplayType::Frame) => true,
            _ => false,
        }
    }
}

/// What merging adds for the click `c`: nothing for an empty click, else the
/// click retargeted.
fn merge_target(c: Click, force_player2: bool) -> (r: Option<Click>)
    ensures
        r == (if is_input(c) {
            Some(retarget(c, force_player2))
        } else {
            None
        }),
{
    match c.click_type {
        ClickType::Player1Down => {
            if force_player2 {
                Some(Click { location: c.location, click_type: ClickType::Player2Down })
            } else {
                Some(c)
            }
        },
        ClickType::Player1Up => {
            if force_player2 {
                Some(Click { location: c.location, click_type: ClickType::Player2Up })
            } else {
                Some(c)
            }
        },
        ClickType::NoClick => None,
        _ => Some(c),
    }
}

/// Frees spare capacity of the click list.
#[verifier::external_body]
fn shrink_clicks(v: &mut Vec<Click>)
    ensures
        final(v)@ == old(v)@,
{
    v.shrink_to_fit();
}

/// The frame rate in force after the first `end` clicks of `clicks`.
fn fps_after(clicks: &Vec<Click>, end: usize, init: u32) -> (r: u32)
    requires
        end <= clicks@.len(),
    ensures
        r == last_fps(clicks@.take(end as int), init),
{
    let mut k = end;
    while k > 0
        invariant
            k <= end <= clicks@.len(),
            last_fps(clicks@.take(end as int), init) == last_fps(clicks@.take(k as int), init),
        decreases k,
    {
        assert(clicks@.take(k as int).drop_last() =~= clicks@.take(k - 1));
        match clicks[k - 1].click_type {
            ClickType::FpsChange(f) => {
                return f;
            },
            _ => {},
        }
        k = k - 1;
    }
    init
}

impl Replay {
    /// An empty replay of the given type, starting at frame rate `fps`.
    pub fn new(fps: u32, replay_type: ReplayType) -> (r: Self)
        ensures
            r.initial_fps == fps,
            r.current_fps == fps,
            r.replay_type == replay_type,
            r.current_click == 0,
            r.clicks@ == Seq::<Click>::empty(),
    {
        Replay {
            initial_fps: fps,
            current_fps: fps,
            replay_type,
            current_click: 0,
            clicks: Vec::new(),
        }
    }

    /// Appends a click; its location must be of the replay's kind.
    pub fn add_click(&mut self, click: Click)
        requires
            kind_matches(click.location, old(self).replay_type),
        ensures
            final(self).clicks@ == old(self).clicks@.push(click),
            final(self).initial_fps == old(self).initial_fps,
            final(self).current_fps == old(self).current_fps,
            final(self).replay_type == old(self).replay_type,
            final(self).current_click == old(self).current_click,
    {
        self.clicks.push(click);
    }

    /// Inserts a click at `index`; its location must be of the replay's kind.
    pub fn insert_click(&mut self, index: usize, click: Click)
        requires
            kind_matches(click.location, old(self).replay_type),
            index <= old(self).clicks@.len(),
        ensures
            final(self).clicks@ == old(self).clicks@.insert(index as int, click),
            final(self).initial_fps == old(self).initial_fps,
            final(self).current_fps == old(self).current_fps,
            final(self).replay_type == old(self).replay_type,
            final(self).current_click == old(self).current_click,
    {
        self.clicks.insert(index, click);
    }

    /// Records a change of frame rate at `location`, unless `fps` equals the
    /// current rate as an `f32` (so `-0.0` equals `+0.0`, and a NaN equals
    /// nothing).
    pub fn change_fps(&mut self, location: Location, fps: u32)
        ensures
            !same_rate(old(self).current_fps, fps) ==> final(self).current_fps == fps
                && final(self).clicks@ == old(self).clicks@.push(
                Click { location, click_type: ClickType::FpsChange(fps) },
            ),
            same_rate(old(self).current_fps, fps) ==> final(self).current_fps == old(self).current_fps
                && final(self).clicks@ == old(self).clicks@,
            final(self).initial_fps == old(self).initial_fps,
            final(self).replay_type == old(self).replay_type,
            final(self).current_click == old(self).current_click,
    {
        if !rates_equal(self.current_fps, fps) {
            self.current_fps = fps;
            self.clicks.push(Click { location, click_type: ClickType::FpsChange(fps) });
        }
    }

    /// Whether [`Replay::reset`] can restart from `location`: the location is
    /// of the replay's kind, and playback that ran past the last click of a
    /// nonempty replay restarts only from location 0.
    pub fn can_reset_at(&self, location: &Location, wipe: bool) -> (r: bool)
        ensures
            r == can_reset(*self, *location, wipe),
    {
        self.replay_type.accepts(location) && (wipe || self.clicks.len() == 0 || location.value() == 0
            || self.current_click == 0 || self.current_click < self.clicks.len())
    }

    /// Restarts from `location`. When recording (`wipe`), every click that does
    /// not lie before `location` is dropped and the frame rate becomes that of
    /// the last kept rate change. When playing, the playback position moves
    /// back over the clicks at or after `location` (to the start for location
    /// 0 or an empty replay) and the frame rate becomes that in force there.
    pub fn reset(&mut self, location: Location, wipe: bool)
        requires
            can_reset(*old(self), location, wipe),
        ensures
            reset_from(*old(self), *final(self), location, wipe),
    {
        if wipe {
            let n = self.clicks.len();
            let mut kept: Vec<Click> = Vec::new();
            let mut i: usize = 0;
            while i < n
                invariant
                    n == self.clicks@.len(),
                    i <= n,
                    self.clicks@ == old(self).clicks@,
                    kept@ == self.clicks@.take(i as int).filter(lies_before(location)),
                decreases n - i,
            {
                let c = self.clicks[i];
                proof {
                    assert(self.clicks@.take(i + 1) =~= self.clicks@.take(i as int).push(c));
                    self.clicks@.take(i as int).lemma_filter_push(c, lies_before(location));
                }
                if c.location.less_than(&location) {
                    kept.push(c);
                }
                i = i + 1;
            }
            proof {
                assert(self.clicks@.take(n as int) =~= self.clicks@);
            }
            self.clicks = kept;
            let len = self.clicks.len();
            self.current_fps = fps_after(&self.clicks, len, self.initial_fps);
            proof {
                assert(self.clicks@.take(len as int) =~= self.clicks@);
            }
        } else if self.clicks.len() == 0 || location.value() == 0 {
            self.current_click = 0;
            self.current_fps = self.initial_fps;
        } else {
            let ghost start = self.current_click;
            while self.current_click > 0 && self.clicks[self.current_click].location.greater_or_equal(
                &location,
            )
                invariant
                    self.clicks@ == old(self).clicks@,
                    self.initial_fps == old(self).initial_fps,
                    self.replay_type == old(self).replay_type,
                    start == old(self).current_click,
                    self.current_click <= start,
                    start == 0 || start < self.clicks@.len(),
                    forall|j: int|
                        self.current_click < j <= start ==> loc_ge(
                            #[trigger] self.clicks@[j].location,
                            location,
                        ),
                decreases self.current_click,
            {
                self.current_click -= 1;
            }
            self.current_fps = fps_after(&self.clicks, self.current_click, self.initial_fps);
        }
    }

    /// Moves past the next click of playback if it is due at `location`,
    /// giving a copy of it; a frame-rate change takes effect as it is passed.
    fn next_due_click(&mut self, location: Location) -> (r: Option<Click>)
        ensures
            final(self).clicks@ == old(self).clicks@,
            final(self).initial_fps == old(self).initial_fps,
            final(self).replay_type == old(self).replay_type,
            ({
                let cc = old(self).current_click as int;
                let cs = old(self).clicks@;
                if cc < cs.len() && loc_le(cs[cc].location, location) {
                    &&& r == Some(cs[cc])
                    &&& final(self).current_click == cc + 1
                    &&& final(self).current_fps == (match cs[cc].click_type {
                        ClickType::FpsChange(f) => f,
                        _ => old(self).current_fps,
                    })
                } else {
                    &&& r is None
                    &&& final(self).current_click == old(self).current_click
                    &&& final(self).current_fps == old(self).current_fps
                }
            }),
    {
        if self.current_click >= self.clicks.len() {
            None
        } else if self.clicks[self.current_click].location.less_or_equal(&location) {
            let click = self.clicks[self.current_click];
            self.current_click += 1;
            if let ClickType::FpsChange(fps) = click.click_type {
                self.current_fps = fps;
            }
            Some(click)
        } else {
            None
        }
    }

    /// Hands out the next click of playback if it is due at `location`, and
    /// moves past it; a frame-rate change takes effect as it is handed out.
    /// The click is handed out in place: what the caller writes through it
    /// is what the replay then holds there.
    pub fn get_current_click(&mut self, location: Location) -> (r: Option<&mut Click>)
        ensures
            final(self).initial_fps == old(self).initial_fps,
            final(self).replay_type == old(self).replay_type,
            ({
                let cc = old(self).current_click as int;
                let cs = old(self).clicks@;
                if cc < cs.len() && loc_le(cs[cc].location, location) {
                    &&& r is Some
                    &&& *r.unwrap() == cs[cc]
                    &&& final(self).clicks@ == cs.update(cc, *final(r.unwrap()))
                    &&& final(self).current_click == cc + 1
                    &&& final(self).current_fps == (match cs[cc].click_type {
                        ClickType::FpsChange(f) => f,
                        _ => old(self).current_fps,
                    })
                } else {
                    &&& r is None
                    &&& final(self).clicks@ == cs
                    &&& final(self).current_click == old(self).current_click
                    &&& final(self).current_fps == old(self).current_fps
                }
            }),
    {
        let i = self.current_click;
        match self.next_due_click(location) {
            Some(_) => Some(&mut self.clicks[i]),
            None => None,
        }
    }

    /// Hands out, in order, every click of playback that is due at
    /// `location`, moving past them.
    pub fn get_current_clicks(&mut self, location: Location) -> (r: Vec<Click>)
        ensures
            final(self).clicks@ == old(self).clicks@,
            final(self).initial_fps == old(self).initial_fps,
            final(self).replay_type == old(self).replay_type,
            advanced_over(
                old(self).clicks@,
                old(self).current_click as int,
                old(self).current_fps,
                location,
                final(self).current_click as int,
                final(self).current_fps,
                r@,
            ),
    {
        let ghost start = self.current_click as int;
        let ghost fps0 = self.current_fps;
        let mut res: Vec<Click> = Vec::new();
        let mut click_opt = self.next_due_click(location);
        proof {
            assert(last_fps(res@, fps0) == fps0);
            if click_opt is Some {
                assert(res@.push(click_opt.unwrap()).drop_last() =~= res@);
                assert(self.clicks@.subrange(start, start) =~= res@);
            } else if start <= self.clicks@.len() {
                assert(self.clicks@.subrange(start, self.current_click as int) =~= res@);
            }
        }
        while click_opt.is_some()
            invariant
                self.clicks@ == old(self).clicks@,
                self.initial_fps == old(self).initial_fps,
                self.replay_type == old(self).replay_type,
                start == old(self).current_click,
                fps0 == old(self).current_fps,
                start <= self.current_click,
                click_opt is Some ==> self.current_click >= 1 && self.current_click <= self.clicks@.len()
                    && click_opt == Some(self.clicks@[self.current_click - 1])
                    && start <= self.current_click - 1,
                click_opt is Some ==> res@ == self.clicks@.subrange(start, self.current_click - 1)
                    && last_fps(res@.push(click_opt.unwrap()), fps0) == self.current_fps,
                click_opt is None && start <= self.clicks@.len() ==> res@ == self.clicks@.subrange(
                    start,
                    self.current_click as int,
                ),
                click_opt is None && start > self.clicks@.len() ==> res@.len() == 0,
                click_opt is None ==> last_fps(res@, fps0) == self.current_fps,
                start < self.clicks@.len() ==> self.current_click <= self.clicks@.len(),
                start >= self.clicks@.len() ==> self.current_click == start,
                forall|k: int|
                    start <= k < self.current_click ==> loc_le(
                        #[trigger] self.clicks@[k].location,
                        location,
                    ),
                click_opt is None ==> (self.current_click < self.clicks@.len() ==> !loc_le(
                    self.clicks@[self.current_click as int].location,
                    location,
                )),
            decreases self.clicks@.len() - self.current_click + (if click_opt is Some { 1int } else { 0 }),
        {
            let click = click_opt.unwrap();
            proof {
                assert(self.clicks@.subrange(start, self.current_click as int) =~= res@.push(click));
            }
            res.push(click);
            click_opt = self.next_due_click(location);
            proof {
                if click_opt is Some {
                    assert(res@.push(click_opt.unwrap()).drop_last() =~= res@);
                }
            }
        }
        proof {
            if start >= self.clicks@.len() {
                assert(res@ =~= Seq::<Click>::empty());
            }
        }
        res
    }

    /// Calls `f` on every click of playback that is due at `location`, in
    /// order, moving past them; `f`'s postcondition holds of each of them.
    pub fn for_all_current_clicks<F: Fn(&Click)>(&mut self, location: Location, f: F)
        requires
            forall|c: &Click| #[trigger] f.requires((c,)),
        ensures
            final(self).clicks@ == old(self).clicks@,
            final(self).initial_fps == old(self).initial_fps,
            final(self).replay_type == old(self).replay_type,
            advanced_over(
                old(self).clicks@,
                old(self).current_click as int,
                old(self).current_fps,
                location,
                final(self).current_click as int,
                final(self).current_fps,
                if old(self).current_click < old(self).clicks@.len() {
                    old(self).clicks@.subrange(
                        old(self).current_click as int,
                        final(self).current_click as int,
                    )
                } else {
                    Seq::<Click>::empty()
                },
            ),
            forall|k: int|
                old(self).current_click <= k < final(self).current_click ==> f.ensures(
                    (&#[trigger] old(self).clicks@[k],),
                    (),
                ),
    {
        let ghost start = self.current_click as int;
        let due = self.get_current_clicks(location);
        let n = due.len();
        let mut i: usize = 0;
        while i < n
            invariant
                n == due@.len(),
                i <= n,
                forall|c: &Click| #[trigger] f.requires((c,)),
                forall|j: int| 0 <= j < i ==> f.ensures((&#[trigger] due@[j],), ()),
            decreases n - i,
        {
            f(&due[i]);
            i = i + 1;
        }
        proof {
            assert forall|k: int| start <= k < self.current_click implies f.ensures(
                (&#[trigger] old(self).clicks@[k],),
                (),
            ) by {
                assert(due@[k - start] == old(self).clicks@[k]);
            }
        }
    }

    /// The last press or release of the given player's button before the
    /// playback position.
    pub fn get_last_click(&mut self, player2: bool) -> (r: Option<&Click>)
        requires
            old(self).current_click <= old(self).clicks@.len(),
        ensures
            *final(self) == *old(self),
            ({
                let cs = old(self).clicks@;
                let cc = old(self).current_click as int;
                match r {
                    Some(c) => exists|k: int|
                        0 <= k < cc && cs[k] == *c && is_player_click(c.click_type, player2)
                            && forall|j: int|
                            k < j < cc ==> !is_player_click(#[trigger] cs[j].click_type, player2),
                    None => forall|j: int|
                        0 <= j < cc ==> !is_player_click(#[trigger] cs[j].click_type, player2),
                }
            }),
    {
        let mut k = self.current_click;
        while k > 0
            invariant
                k <= self.current_click <= self.clicks@.len(),
                forall|j: int|
                    k <= j < self.current_click ==> !is_player_click(
                        #[trigger] self.clicks@[j].click_type,
                        player2,
                    ),
            decreases k,
        {
            let hit = match self.clicks[k - 1].click_type {
                ClickType::Player1Down | ClickType::Player1Up => !player2,
                ClickType::Player2Down | ClickType::Player2Up => player2,
                _ => false,
            };
            if hit {
                return Some(&self.clicks[k - 1]);
            }
            k = k - 1;
        }
        None
    }

    /// Releases spare memory of the click list; the clicks stay as they are.
    pub fn finalise(&mut self)
        ensures
            final(self).clicks@ == old(self).clicks@,
            final(self).initial_fps == old(self).initial_fps,
            final(self).current_fps == old(self).current_fps,
            final(self).replay_type == old(self).replay_type,
            final(self).current_click == old(self).current_click,
    {
        shrink_clicks(&mut self.clicks);
    }

    /// The click at `position`, if there is one.
    fn get_click(&mut self, position: usize) -> (r: Option<Click>)
        ensures
            *final(self) == *old(self),
            position < old(self).clicks@.len() ==> r == Some(old(self).clicks@[position as int]),
            position >= old(self).clicks@.len() ==> r is None,
    {
        if position < self.clicks.len() {
            Some(self.clicks[position])
        } else {
            None
        }
    }

    /// Swaps the click at `position` with the one after it.
    pub fn move_click_up(&mut self, position: usize)
        requires
            position + 1 < old(self).clicks@.len(),
        ensures
            final(self).clicks@ == old(self).clicks@.update(
                position as int,
                old(self).clicks@[position + 1],
            ).update(position + 1, old(self).clicks@[position as int]),
            final(self).initial_fps == old(self).initial_fps,
            final(self).current_fps == old(self).current_fps,
            final(self).replay_type == old(self).replay_type,
            final(self).current_click == old(self).current_click,
    {
        let len = self.clicks.len();
        assert(position + 1 < len);
        let a = self.clicks[position];
        let b = self.clicks[position + 1];
        self.clicks.set(position, b);
        self.clicks.set(position + 1, a);
    }

    /// Swaps the click at `position` with the one before it.
    pub fn move_click_down(&mut self, position: usize)
        requires
            1 <= position < old(self).clicks@.len(),
        ensures
            final(self).clicks@ == old(self).clicks@.update(
                position as int,
                old(self).clicks@[position - 1],
            ).update(position - 1, old(self).clicks@[position as int]),
            final(self).initial_fps == old(self).initial_fps,
            final(self).current_fps == old(self).current_fps,
            final(self).replay_type == old(self).replay_type,
            final(self).current_click == old(self).current_click,
    {
        let a = self.clicks[position];
        let b = self.clicks[position - 1];
        self.clicks.set(position, b);
        self.clicks.set(position - 1, a);
    }

    /// Removes the click at `position`.
    pub fn delete_click(&mut self, position: usize)
        requires
            position < old(self).clicks@.len(),
        ensures
            final(self).clicks@ == old(self).clicks@.remove(position as int),
            final(self).initial_fps == old(self).initial_fps,
            final(self).current_fps == old(self).current_fps,
            final(self).replay_type == old(self).replay_type,
            final(self).current_click == old(self).current_click,
    {
        self.clicks.remove(position);
    }

    /// Sorts the clicks by location, keeping clicks at the same location in
    /// their order; all locations must be of one kind.
    pub fn sort(&mut self)
        requires
            all_same_kind(old(self).clicks@),
        ensures
            is_stable_sort_of(final(self).clicks@, old(self).clicks@),
            final(self).initial_fps == old(self).initial_fps,
            final(self).current_fps == old(self).current_fps,
            final(self).replay_type == old(self).replay_type,
            final(self).current_click == old(self).current_click,
    {
        self.clicks = stable_sort_clicks(&self.clicks);
    }

    /// Adds the non-empty clicks of `other` (player 1's as player 2's with
    /// `force_player2`) and sorts the result by location.
    pub fn merge(&mut self, other: &Replay, force_player2: bool)
        requires
            old(self).replay_type == other.replay_type,
            same_rate(old(self).initial_fps, other.initial_fps),
            all_same_kind(old(self).clicks@ + merged_clicks(other.clicks@, force_player2)),
        ensures
            is_stable_sort_of(
                final(self).clicks@,
                old(self).clicks@ + merged_clicks(other.clicks@, force_player2),
            ),
            final(self).initial_fps == old(self).initial_fps,
            final(self).current_fps == old(self).current_fps,
            final(self).replay_type == old(self).replay_type,
            final(self).current_click == old(self).current_click,
    {
        let ghost pred = |c: Click| is_input(c);
        let ghost f = |c: Click| retarget(c, force_player2);
        let n = other.clicks.len();
        let mut i: usize = 0;
        while i < n
            invariant
                n == other.clicks@.len(),
                i <= n,
                pred == (|c: Click| is_input(c)),
                f == (|c: Click| retarget(c, force_player2)),
                self.initial_fps == old(self).initial_fps,
                self.current_fps == old(self).current_fps,
                self.replay_type == old(self).replay_type,
                self.current_click == old(self).current_click,
                self.clicks@ == old(self).clicks@ + other.clicks@.take(i as int).filter(pred).map_values(f),
            decreases n - i,
        {
            let c = other.clicks[i];
            let ghost before = self.clicks@;
            let ghost t = other.clicks@.take(i as int).filter(pred);
            proof {
                assert(other.clicks@.take(i + 1) =~= other.clicks@.take(i as int).push(c));
                other.clicks@.take(i as int).lemma_filter_push(c, pred);
                t.lemma_push_map_commute(f, c);
                assert(before == old(self).clicks@ + t.map_values(f));
            }
            let target = merge_target(c, force_player2);
            if let Some(m) = target {
                self.clicks.push(m);
            }
            proof {
                if pred(c) {
                    assert(self.clicks@ == before.push(f(c)));
                    assert(before.push(f(c)) =~= old(self).clicks@ + t.map_values(f).push(f(c)));
                } else {
                    assert(self.clicks@ == before);
                }
            }
            i = i + 1;
        }
        proof {
            assert(other.clicks@.take(n as int) =~= other.clicks@);
        }
        self.sort();
        self.finalise();
    }

    /// Drops empty clicks and button clicks that repeat the type of the
    /// button click before them; frame-rate changes are all kept.
    pub fn clean(&mut self)
        ensures
            final(self).clicks@ == cleaned(old(self).clicks@),
            final(self).initial_fps == old(self).initial_fps,
            final(self).current_fps == old(self).current_fps,
            final(self).replay_type == old(self).replay_type,
            final(self).current_click == old(self).current_click,
    {
        let mut last_click_type: Option<ClickType> = None;
        let mut new_clicks: Vec<Click> = Vec::new();
        let n = self.clicks.len();
        let mut i: usize = 0;
        while i < n
            invariant
                n == self.clicks@.len(),
                i <= n,
                self.clicks@ == old(self).clicks@,
                new_clicks@ == cleaned(self.clicks@.take(i as int)),
                last_click_type == last_button(self.clicks@.take(i as int)),
            decreases n - i,
        {
            let click = self.clicks[i];
            proof {
                assert(self.clicks@.take(i + 1).drop_last() =~= self.clicks@.take(i as int));
            }
            match click.click_type {
                ClickType::NoClick => {},
                ClickType::FpsChange(_) => new_clicks.push(click),
                _ => {
                    match last_click_type {
                        None => {
                            last_click_type = Some(click.click_type);
                            new_clicks.push(click);
                        },
                        Some(click_type) => {
                            if click_type != click.click_type {
                                new_clicks.push(click);
                                last_click_type = Some(click.click_type);
                            }
                        },
                    }
                },
            }
            i = i + 1;
        }
        proof {
            assert(self.clicks@.take(n as int) =~= self.clicks@);
        }
        self.clicks = new_clicks;
        self.finalise();
    }

    /// The replay's type.
    pub fn get_type(&self) -> (r: ReplayType)
        ensures
            r == self.replay_type,
    {
        self.replay_type
    }

    /// The frame rate in force at the playback position.
    pub fn get_current_fps(&self) -> (r: u32)
        ensures
            r == self.current_fps,
    {
        self.current_fps
    }

    /// Whether playback has passed the last click.
    pub fn is_done(&self) -> (r: bool)
        ensures
            r == (self.current_click >= self.clicks@.len()),
    {
        self.current_click >= self.clicks.len()
    }

    /// The recorded clicks.
    pub fn get_clicks(&self) -> (r: &Vec<Click>)
        ensures
            r@ == self.clicks@,
    {
        &self.clicks
    }
}

/// Playing back past the last click hands out every click from the playback
/// position on and finishes the replay.
pub proof fn playback_reaches_end(
    cs: Seq<Click>,
    start: int,
    fps0: u32,
    location: Location,
    end: int,
    fps1: u32,
    handed: Seq<Click>,
)
    requires
        0 <= start < cs.len(),
        forall|k: int| start <= k < cs.len() ==> loc_le(#[trigger] cs[k].location, location),
        advanced_over(cs, start, fps0, location, end, fps1, handed),
    ensures
        end == cs.len(),
        handed == cs.subrange(start, cs.len() as int),
        fps1 == last_fps(cs.subrange(start, cs.len() as int), fps0),
{
}

/// Playing back a replay sorted by location, with clicks of the location's
/// kind, leaves no due click behind: every click after the new playback
/// position lies after `location`.
pub proof fn sorted_playback_leaves_nothing_due(
    cs: Seq<Click>,
    start: int,
    fps0: u32,
    location: Location,
    end: int,
    fps1: u32,
    handed: Seq<Click>,
)
    requires
        0 <= start < cs.len(),
        sorted_by_location(cs),
        forall|k: int| 0 <= k < cs.len() ==> same_kind(#[trigger] cs[k].location, location),
        advanced_over(cs, start, fps0, location, end, fps1, handed),
    ensures
        forall|k: int| end <= k < cs.len() ==> !loc_le(#[trigger] cs[k].location, location),
{
    assert forall|k: int| end <= k < cs.len() implies !loc_le(#[trigger] cs[k].location, location) by {
        if end < k {
            assert(loc_value(cs[end].location) <= loc_value(cs[k].location));
            assert(same_kind(cs[end].location, location));
        }
    }
}

/// The clicks merging adds from `s` are exactly its non-empty clicks, in
/// order, each at its own location and of its own type, frame-rate changes
/// included; with `force_player2` player 1's presses and releases become
/// player 2's and nothing else changes.
pub proof fn merge_adds_every_nonempty_click(s: Seq<Click>, force_player2: bool)
    ensures
        ({
            let kept = s.filter(|c: Click| !(c.click_type is NoClick));
            let m = merged_clicks(s, force_player2);
            &&& m.len() == kept.len()
            &&& forall|k: int|
                0 <= k < kept.len() ==> (#[trigger] m[k]).location == kept[k].location
                    && m[k].click_type == (if force_player2 && kept[k].click_type is Player1Down {
                    ClickType::Player2Down
                } else if force_player2 && kept[k].click_type is Player1Up {
                    ClickType::Player2Up
                } else {
                    kept[k].click_type
                })
        }),
{
    let p1 = |c: Click| is_input(c);
    let p2 = |c: Click| !(c.click_type is NoClick);
    assert(p1 =~= p2);
}

/// Merging neither loses nor invents a click: the merged replay holds the
/// replay's own clicks and the clicks added from `other`, each as often as
/// before, and every frame-rate change of `other` is in it unchanged.
pub proof fn merge_result_holds_all_clicks(
    own: Seq<Click>,
    other: Seq<Click>,
    force_player2: bool,
    result: Seq<Click>,
)
    requires
        is_stable_sort_of(result, own + merged_clicks(other, force_player2)),
    ensures
        result.to_multiset() == own.to_multiset().add(merged_clicks(other, force_player2).to_multiset()),
        result.len() == own.len() + other.filter(|c: Click| !(c.click_type is NoClick)).len(),
        forall|i: int|
            0 <= i < other.len() && (#[trigger] other[i]).click_type is FpsChange ==> result.contains(
                other[i],
            ),
{
    let m = merged_clicks(other, force_player2);
    stable_sort_is_permutation(result, own + m);
    vstd::seq_lib::lemma_multiset_commutative(own, m);
    merge_adds_every_nonempty_click(other, force_player2);
    let pred = |c: Click| is_input(c);
    let f = |c: Click| retarget(c, force_player2);
    assert forall|i: int|
        0 <= i < other.len() && (#[trigger] other[i]).click_type is FpsChange implies result.contains(
            other[i],
        ) by {
        let c = other[i];
        other.lemma_filter_contains(pred, i);
        let fl = other.filter(pred);
        let k = choose|k: int| 0 <= k < fl.len() && fl[k] == c;
        assert(m[k] == f(fl[k]));
        assert(m[k] == c);
        assert((own + m)[own.len() + k] == c);
        (own + m).to_multiset_ensures();
        result.to_multiset_ensures();
        assert((own + m).contains(c));
        assert((own + m).to_multiset().count(c) > 0);
        assert(result.to_multiset().count(c) > 0);
    }
}

/// The clicks due at `location`: those at or before it.
pub open spec fn due_at(location: Location) -> spec_fn(Click) -> bool {
    |c: Click| loc_le(c.location, location)
}

/// A sequence whose first `end` clicks meet `p` and whose others do not
/// keeps exactly its first `end` clicks under `p`.
proof fn lemma_filter_prefix(s: Seq<Click>, p: spec_fn(Click) -> bool, end: int)
    requires
        0 <= end <= s.len(),
        forall|k: int| 0 <= k < end ==> p(#[trigger] s[k]),
        forall|k: int| end <= k < s.len() ==> !p(#[trigger] s[k]),
    ensures
        s.filter(p) == s.take(end),
    decreases s.len(),
{
    if s.len() > 0 {
        let d = s.drop_last();
        assert forall|k: int| 0 <= k < d.len() implies #[trigger] d[k] == s[k] by {}
        assert(d.push(s.last()) =~= s);
        d.lemma_filter_push(s.last(), p);
        if s.len() > end {
            assert(!p(s[s.len() - 1]));
            lemma_filter_prefix(d, p, end);
            assert(s.filter(p) == d.filter(p));
            assert(d.take(end) =~= s.take(end));
        } else {
            assert(p(s[end - 1]));
            lemma_filter_prefix(d, p, end - 1);
            assert(s.filter(p) == d.filter(p).push(s.last()));
            assert(d.take(end - 1) =~= d);
            assert(s.take(end) =~= s);
        }
    } else {
        reveal(Seq::filter);
        assert(s.take(end) =~= s);
    }
}

/// Playing a replay back from its start hands out exactly what was recorded
/// up to `location`: with the clicks sorted by location and of the
/// location's kind, the clicks handed out are those due at `location`, in
/// their recorded order, and the frame rate in force afterwards is that of
/// the last rate change among them.
pub proof fn playback_from_start_hands_out_due_clicks(
    cs: Seq<Click>,
    fps0: u32,
    location: Location,
    end: int,
    fps1: u32,
    handed: Seq<Click>,
)
    requires
        sorted_by_location(cs),
        forall|k: int| 0 <= k < cs.len() ==> same_kind(#[trigger] cs[k].location, location),
        advanced_over(cs, 0, fps0, location, end, fps1, handed),
    ensures
        handed == cs.filter(due_at(location)),
        fps1 == last_fps(cs.filter(due_at(location)), fps0),
{
    if cs.len() == 0 {
        assert(cs.filter(due_at(location)) =~= Seq::<Click>::empty());
    } else {
        sorted_playback_leaves_nothing_due(cs, 0, fps0, location, end, fps1, handed);
        let p = due_at(location);
        assert forall|k: int| 0 <= k < end implies p(#[trigger] cs[k]) by {
            assert(loc_le(cs[k].location, location));
        }
        assert forall|k: int| end <= k < cs.len() implies !p(#[trigger] cs[k]) by {
            assert(!loc_le(cs[k].location, location));
        }
        lemma_filter_prefix(cs, p, end);
        assert(cs.subrange(0, end) =~= cs.take(end));
    }
}

proof fn lemma_last_button_cleaned(s: Seq<Click>)
    ensures
        last_button(cleaned(s)) == last_button(s),
    decreases s.len(),
{
    if s.len() > 0 {
        let p = s.drop_last();
        let c = s.last();
        lemma_last_button_cleaned(p);
        let cp = cleaned(p);
        assert(cp.push(c).drop_last() =~= cp);
    }
}

proof fn lemma_last_button_witness(p: Seq<Click>, t: ClickType)
    requires
        last_button(p) == Some(t),
    ensures
        exists|j: int|
            0 <= j < p.len() && (#[trigger] p[j]).click_type == t && is_button(t) && forall|k: int|
                j < k < p.len() ==> !is_button((#[trigger] p[k]).click_type),
    decreases p.len(),
{
    let q = p.drop_last();
    if is_button(p.last().click_type) {
        assert(p[p.len() - 1].click_type == t);
    } else {
        lemma_last_button_witness(q, t);
        let j = choose|j: int|
            0 <= j < q.len() && (#[trigger] q[j]).click_type == t && is_button(t) && forall|k: int|
                j < k < q.len() ==> !is_button((#[trigger] q[k]).click_type);
        assert(p[j] == q[j]);
        assert forall|k: int| j < k < p.len() implies !is_button((#[trigger] p[k]).click_type) by {
            if k < q.len() {
                assert(p[k] == q[k]);
            }
        }
    }
}

/// Cleaning drops nothing but empty clicks and repeats: a click list with
/// no empty click, in which no press or release (of either player) has the
/// type of the nearest press or release before it, is left as it is.
#[verifier::rlimit(50)]
pub proof fn clean_keeps_a_clean_list(s: Seq<Click>)
    requires
        forall|i: int| 0 <= i < s.len() ==> !((#[trigger] s[i]).click_type is NoClick),
        forall|i: int, j: int|
            #![trigger s[i], s[j]]
            0 <= j < i < s.len() && (s[j].click_type is Player1Down || s[j].click_type is Player1Up
                || s[j].click_type is Player2Down || s[j].click_type is Player2Up) && (s[i].click_type is Player1Down
                || s[i].click_type is Player1Up || s[i].click_type is Player2Down
                || s[i].click_type is Player2Up) && (forall|k: int|
                j < k < i ==> !((#[trigger] s[k]).click_type is Player1Down || s[k].click_type is Player1Up
                    || s[k].click_type is Player2Down || s[k].click_type is Player2Up)) ==> s[i].click_type
                != s[j].click_type,
    ensures
        cleaned(s) == s,
    decreases s.len(),
{
    if s.len() > 0 {
        let p = s.drop_last();
        let c = s.last();
        assert forall|i: int| 0 <= i < p.len() implies #[trigger] p[i] == s[i] by {}
        assert forall|i: int| 0 <= i < p.len() implies !((#[trigger] p[i]).click_type is NoClick) by {
            assert(p[i] == s[i]);
        }
        assert forall|i: int, j: int|
            #![trigger p[i], p[j]]
            0 <= j < i < p.len() && (p[j].click_type is Player1Down || p[j].click_type is Player1Up
                || p[j].click_type is Player2Down || p[j].click_type is Player2Up) && (p[i].click_type is Player1Down
                || p[i].click_type is Player1Up || p[i].click_type is Player2Down
                || p[i].click_type is Player2Up) && (forall|k: int|
                j < k < i ==> !((#[trigger] p[k]).click_type is Player1Down || p[k].click_type is Player1Up
                    || p[k].click_type is Player2Down || p[k].click_type is Player2Up)) implies p[i].click_type
                != p[j].click_type by {
            assert(p[i] == s[i]);
            assert(p[j] == s[j]);
            assert forall|k: int| j < k < i implies !((#[trigger] s[k]).click_type is Player1Down
                || s[k].click_type is Player1Up || s[k].click_type is Player2Down
                || s[k].click_type is Player2Up) by {
                assert(p[k] == s[k]);
            }
        }
        clean_keeps_a_clean_list(p);
        assert(p.push(c) =~= s);
        if is_button(c.click_type) {
            if last_button(p) == Some(c.click_type) {
                lemma_last_button_witness(p, c.click_type);
                let j = choose|j: int|
                    0 <= j < p.len() && (#[trigger] p[j]).click_type == c.click_type && is_button(
                        c.click_type,
                    ) && forall|k: int| j < k < p.len() ==> !is_button((#[trigger] p[k]).click_type);
                let i = s.len() - 1;
                assert(s[j] == p[j]);
                assert forall|k: int| j < k < i implies !((#[trigger] s[k]).click_type is Player1Down
                    || s[k].click_type is Player1Up || s[k].click_type is Player2Down
                    || s[k].click_type is Player2Up) by {
                    assert(s[k] == p[k]);
                }
                assert(s[i] == c);
                assert(false);
            }
        }
    }
}

/// Cleaning leaves no empty click, and no button click that repeats the type
/// of the button click before it.
pub proof fn cleaned_has_no_repeats(s: Seq<Click>)
    ensures
        forall|i: int| 0 <= i < cleaned(s).len() ==> is_input(#[trigger] cleaned(s)[i]),
        forall|i: int|
            0 <= i < cleaned(s).len() && is_button(cleaned(s)[i].click_type) ==> last_button(
                #[trigger] cleaned(s).take(i),
            ) != Some(cleaned(s)[i].click_type),
    decreases s.len(),
{
    if s.len() > 0 {
        let p = s.drop_last();
        let c = s.last();
        cleaned_has_no_repeats(p);
        lemma_last_button_cleaned(p);
        let cp = cleaned(p);
        let cs = cleaned(s);
        assert forall|i: int| 0 <= i < cs.len() implies is_input(#[trigger] cs[i]) by {
            if i < cp.len() {
                assert(cs[i] == cp[i]);
            }
        }
        assert forall|i: int|
            0 <= i < cs.len() && is_button(cs[i].click_type) implies last_button(
                #[trigger] cs.take(i),
            ) != Some(cs[i].click_type) by {
            if i < cp.len() {
                assert(cs.take(i) =~= cp.take(i));
                assert(cs[i] == cp[i]);
            } else {
                assert(cs.take(i) =~= cp);
            }
        }
    }
}

/// Cleaning a cleaned list changes nothing.
pub proof fn clean_is_idempotent(s: Seq<Click>)
    ensures
        cleaned(cleaned(s)) == cleaned(s),
    decreases s.len(),
{
    if s.len() > 0 {
        let p = s.drop_last();
        let c = s.last();
        clean_is_idempotent(p);
        lemma_last_button_cleaned(p);
        let cp = cleaned(p);
        if c.click_type is FpsChange || (is_button(c.click_type) && last_button(p) != Some(
            c.click_type,
        )) {
            assert(cp.push(c).drop_last() =~= cp);
            assert(cleaned(cp.push(c)) == cleaned(cp).push(c));
        }
    } else {
        assert(cleaned(cleaned(s)) == cleaned(s));
    }
}

} // verus!
