use vstd::prelude::*;

use crate::gd::GameObject;
use crate::player_object::GameMode;
use crate::replay::ClickType;

verus! {

/// The saved state of one player at a checkpoint. Accelerations are `f64`
/// and sizes, speeds, rotations and positions `f32` bit patterns.
#[derive(Clone, Copy, Debug, PartialEq, Eq, Structural)]
pub struct CheckpointData {
    pub x_accel: u64,
    pub y_accel: u64,
    pub jump_accel: u64,
    pub is_holding: bool,
    pub has_just_held: bool,
    pub is_holding2: bool,
    pub has_just_held2: bool,
    pub can_robot_jump: bool,
    pub is_upside_down: bool,
    pub is_on_ground: bool,
    pub is_dashing: bool,
    pub is_sliding: bool,
    pub is_rising: bool,
    pub black_orb: bool,
    pub unk662: bool,
    pub unk630: bool,
    pub unk631: bool,
    pub vehicle_size: u32,
    pub player_speed: u32,
    pub rotation_x: u32,
    pub rotation_y: u32,
    pub x_pos: u32,
    pub y_pos: u32,
    pub game_mode: GameMode,
}

/// A practice-mode checkpoint: both players' state, how many objects each
/// player had used, the play time, and where the frame count went on from
/// (times as `f64` bit patterns).
#[derive(Clone, Copy, Debug, PartialEq, Eq, Structural)]
pub struct Checkpoint {
    pub player1: CheckpointData,
    pub player2: CheckpointData,
    pub number_of_activated_objects: usize,
    pub number_of_activated_objects_p2: usize,
    pub time: u64,
    pub time_offset: u64,
    pub frame_offset: u32,
}

/// The button change that restoring a saved hold state makes: 0 for none,
/// 2 when the button was held and is released, 1 when it is pressed.
pub open spec fn hold_change_of(saved: bool, current: bool) -> u8 {
    if saved != current {
        if current { 2 } else { 1 }
    } else {
        0
    }
}

/// The click queued for a hold change: a press for 2, else a release.
pub open spec fn change_click(change: u8, player2: bool) -> ClickType {
    if player2 {
        if change == 2 { ClickType::Player2Down } else { ClickType::Player2Up }
    } else {
        if change == 2 { ClickType::Player1Down } else { ClickType::Player1Up }
    }
}

impl CheckpointData {
    /// The button change that restoring this state makes on a player whose
    /// button is `current_holding` (see [`hold_change_of`]).
    pub fn hold_change(&self, current_holding: bool) -> (r: u8)
        ensures
            r == hold_change_of(self.is_holding, current_holding),
    {
        if self.is_holding != current_holding {
            if current_holding { 2 } else { 1 }
        } else {
            0
        }
    }
}

impl Checkpoint {
    /// The clicks to queue after restoring this checkpoint onto players
    /// whose buttons are `p1_holding` and `p2_holding`: unless `auto_hold`,
    /// one per player whose hold state changes (player 2 only when present),
    /// player 1's first.
    pub fn restore_clicks(&self, p1_holding: bool, p2_holding: bool, p2_present: bool, auto_hold: bool) -> (r: Vec<ClickType>)
        ensures
            p1_holding == self.player1.is_holding && (p2_holding == self.player2.is_holding || !p2_present)
                ==> r@.len() == 0,
            r@ == (if !auto_hold && hold_change_of(self.player1.is_holding, p1_holding) != 0 {
                seq![change_click(hold_change_of(self.player1.is_holding, p1_holding), false)]
            } else {
                Seq::<ClickType>::empty()
            }) + (if !auto_hold && hold_change_of(self.player2.is_holding, p2_holding) != 0
                && p2_present {
                seq![change_click(hold_change_of(self.player2.is_holding, p2_holding), true)]
            } else {
                Seq::<ClickType>::empty()
            }),
    {
        let mut out: Vec<ClickType> = Vec::new();
        let click = self.player1.hold_change(p1_holding);
        if !auto_hold && click != 0 {
            out.push(if click == 2 { ClickType::Player1Down } else { ClickType::Player1Up });
        }
        let click = self.player2.hold_change(p2_holding);
        if !auto_hold && click != 0 && p2_present {
            out.push(if click == 2 { ClickType::Player2Down } else { ClickType::Player2Up });
        }
        proof {
            assert(out@ =~= (if !auto_hold && hold_change_of(self.player1.is_holding, p1_holding)
                != 0 {
                seq![change_click(hold_change_of(self.player1.is_holding, p1_holding), false)]
            } else {
                Seq::<ClickType>::empty()
            }) + (if !auto_hold && hold_change_of(self.player2.is_holding, p2_holding) != 0
                && p2_present {
                seq![change_click(hold_change_of(self.player2.is_holding, p2_holding), true)]
            } else {
                Seq::<ClickType>::empty()
            }));
        }
        out
    }
}

/// Practice-mode checkpoints that also remember the objects (orbs, pads...)
/// each player used, so that restarting from a checkpoint keeps them used.
pub struct PracticeFix {
    pub checkpoints: Vec<Checkpoint>,
    pub activated_objects: Vec<GameObject>,
    pub activated_objects_p2: Vec<GameObject>,
    pub active: bool,
    pub auto_hold: bool,
}

/// Every checkpoint counts at most as many used objects as are remembered,
/// and the counts never shrink from one checkpoint to the next.
pub open spec fn counts_fit(cs: Seq<Checkpoint>, objs: Seq<GameObject>, objs_p2: Seq<GameObject>) -> bool {
    &&& forall|i: int|
        0 <= i < cs.len() ==> (#[trigger] cs[i]).number_of_activated_objects <= objs.len()
            && cs[i].number_of_activated_objects_p2 <= objs_p2.len()
    &&& forall|i: int, j: int|
        0 <= i < j < cs.len() ==> (#[trigger] cs[i]).number_of_activated_objects
            <= (#[trigger] cs[j]).number_of_activated_objects
            && cs[i].number_of_activated_objects_p2 <= cs[j].number_of_activated_objects_p2
}

/// The objects left after forgetting all but the first `keep`.
pub open spec fn kept_objects(objs: Seq<GameObject>, keep: usize) -> Seq<GameObject> {
    if keep < objs.len() {
        objs.take(keep as int)
    } else {
        objs
    }
}

impl Default for PracticeFix {
    /// No checkpoints and no used objects; active, with auto hold.
    fn default() -> (r: Self)
        ensures
            r.checkpoints@.len() == 0,
            r.activated_objects@.len() == 0,
            r.activated_objects_p2@.len() == 0,
            counts_fit(r.checkpoints@, r.activated_objects@, r.activated_objects_p2@),
            r.active,
            r.auto_hold,
    {
        PracticeFix {
            checkpoints: Vec::new(),
            activated_objects: Vec::new(),
            activated_objects_p2: Vec::new(),
            active: true,
            auto_hold: true,
        }
    }
}

impl PracticeFix {
    /// Saves a checkpoint with the given players' state, play time and frame
    /// count offsets, counting the objects used so far.
    pub fn add_checkpoint(
        &mut self,
        player1: CheckpointData,
        player2: CheckpointData,
        time: u64,
        time_offset: u64,
        frame_offset: u32,
    )
        ensures
            counts_fit(old(self).checkpoints@, old(self).activated_objects@, old(self).activated_objects_p2@)
                ==> counts_fit(final(self).checkpoints@, final(self).activated_objects@, final(self).activated_objects_p2@),
            final(self).checkpoints@ == old(self).checkpoints@.push(
                Checkpoint {
                    player1,
                    player2,
                    number_of_activated_objects: old(self).activated_objects@.len() as usize,
                    number_of_activated_objects_p2: old(self).activated_objects_p2@.len() as usize,
                    time,
                    time_offset,
                    frame_offset,
                },
            ),
            final(self).activated_objects@ == old(self).activated_objects@,
            final(self).activated_objects_p2@ == old(self).activated_objects_p2@,
            final(self).active == old(self).active,
            final(self).auto_hold == old(self).auto_hold,
    {
        let checkpoint = Checkpoint {
            player1,
            player2,
            number_of_activated_objects: self.activated_objects.len(),
            number_of_activated_objects_p2: self.activated_objects_p2.len(),
            time,
            time_offset,
            frame_offset,
        };
        self.checkpoints.push(checkpoint);
    }

    /// Drops the last checkpoint and forgets the objects used after the one
    /// before it; with no checkpoint, forgets every used object. The only
    /// checkpoint cannot be dropped this way.
    pub fn remove_checkpoint(&mut self)
        requires
            old(self).checkpoints@.len() != 1,
        ensures
            counts_fit(old(self).checkpoints@, old(self).activated_objects@, old(self).activated_objects_p2@)
                ==> counts_fit(final(self).checkpoints@, final(self).activated_objects@, final(self).activated_objects_p2@),
            final(self).active == old(self).active,
            final(self).auto_hold == old(self).auto_hold,
            old(self).checkpoints@.len() == 0 ==> final(self).checkpoints@.len() == 0
                && final(self).activated_objects@.len() == 0
                && final(self).activated_objects_p2@.len() == 0,
            old(self).checkpoints@.len() > 1 ==> {
                let cs = old(self).checkpoints@.drop_last();
                let keep = cs.last().number_of_activated_objects;
                let keep_p2 = cs.last().number_of_activated_objects_p2;
                &&& final(self).checkpoints@ == cs
                &&& final(self).activated_objects@ == kept_objects(old(self).activated_objects@, keep)
                &&& final(self).activated_objects_p2@ == kept_objects(old(self).activated_objects_p2@, keep_p2)
            },
    {
        if self.checkpoints.len() == 0 {
            self.activated_objects.clear();
            self.activated_objects_p2.clear();
        } else {
            self.checkpoints.pop();
            let last = self.checkpoints[self.checkpoints.len() - 1];
            self.activated_objects.truncate(last.number_of_activated_objects);
            self.activated_objects_p2.truncate(last.number_of_activated_objects_p2);
        }
    }

    /// The checkpoint to restore, if any, and whether the players' state is
    /// restored too (when active) or only the time and frame count.
    pub fn apply_checkpoint(&self) -> (r: Option<(Checkpoint, bool)>)
        ensures
            self.checkpoints@.len() == 0 ==> r is None,
            self.checkpoints@.len() > 0 ==> r == Some((self.checkpoints@.last(), self.active)),
    {
        if self.checkpoints.len() == 0 {
            None
        } else {
            Some((self.checkpoints[self.checkpoints.len() - 1], self.active))
        }
    }

    /// Drops every checkpoint and forgets every used object.
    pub fn clear_checkpoints(&mut self)
        ensures
            counts_fit(old(self).checkpoints@, old(self).activated_objects@, old(self).activated_objects_p2@)
                ==> counts_fit(final(self).checkpoints@, final(self).activated_objects@, final(self).activated_objects_p2@),
            final(self).checkpoints@.len() == 0,
            final(self).activated_objects@.len() == 0,
            final(self).activated_objects_p2@.len() == 0,
            final(self).active == old(self).active,
            final(self).auto_hold == old(self).auto_hold,
    {
        self.checkpoints.clear();
        self.activated_objects.clear();
        self.activated_objects_p2.clear();
    }

    /// Remembers that a player used `object`.
    pub fn add_activated_object(&mut self, object: GameObject, player2: bool)
        ensures
            counts_fit(old(self).checkpoints@, old(self).activated_objects@, old(self).activated_objects_p2@)
                ==> counts_fit(final(self).checkpoints@, final(self).activated_objects@, final(self).activated_objects_p2@),
            final(self).checkpoints@ == old(self).checkpoints@,
            player2 ==> final(self).activated_objects_p2@ == old(self).activated_objects_p2@.push(object)
                && final(self).activated_objects@ == old(self).activated_objects@,
            !player2 ==> final(self).activated_objects@ == old(self).activated_objects@.push(object)
                && final(self).activated_objects_p2@ == old(self).activated_objects_p2@,
            final(self).active == old(self).active,
            final(self).auto_hold == old(self).auto_hold,
    {
        if player2 {
            self.activated_objects_p2.push(object);
        } else {
            self.activated_objects.push(object);
        }
    }

    /// Restarting the level. With no checkpoint, the used objects are
    /// forgotten; outside practice mode, everything is; in practice mode the
    /// objects used after the last checkpoint are forgotten, the rest are to
    /// be marked used again, and the last checkpoint is to be restored (it is
    /// returned as by [`PracticeFix::apply_checkpoint`]).
    pub fn on_reset(&mut self, practice_mode: bool) -> (r: Option<(Checkpoint, bool)>)
        ensures
            counts_fit(old(self).checkpoints@, old(self).activated_objects@, old(self).activated_objects_p2@)
                ==> counts_fit(final(self).checkpoints@, final(self).activated_objects@, final(self).activated_objects_p2@),
            final(self).active == old(self).active,
            final(self).auto_hold == old(self).auto_hold,
            old(self).checkpoints@.len() == 0 ==> r is None && final(self).checkpoints@.len() == 0
                && final(self).activated_objects@.len() == 0
                && final(self).activated_objects_p2@.len() == 0,
            old(self).checkpoints@.len() > 0 && !practice_mode ==> r is None
                && final(self).checkpoints@.len() == 0 && final(self).activated_objects@.len() == 0
                && final(self).activated_objects_p2@.len() == 0,
            old(self).checkpoints@.len() > 0 && practice_mode ==> {
                let last = old(self).checkpoints@.last();
                let keep = last.number_of_activated_objects;
                let keep_p2 = last.number_of_activated_objects_p2;
                &&& r == Some((last, old(self).active))
                &&& final(self).checkpoints@ == old(self).checkpoints@
                &&& final(self).activated_objects@ == kept_objects(old(self).activated_objects@, keep)
                &&& final(self).activated_objects_p2@ == kept_objects(old(self).activated_objects_p2@, keep_p2)
            },
    {
        if self.checkpoints.len() == 0 {
            self.activated_objects.clear();
            self.activated_objects_p2.clear();
            None
        } else if practice_mode {
            let last = self.checkpoints[self.checkpoints.len() - 1];
            self.activated_objects.truncate(last.number_of_activated_objects);
            self.activated_objects_p2.truncate(last.number_of_activated_objects_p2);
            self.apply_checkpoint()
        } else {
            self.clear_checkpoints();
            None
        }
    }

    /// Turns restoring the players' state on or off.
    pub fn set_active(&mut self, active: bool)
        ensures
            counts_fit(old(self).checkpoints@, old(self).activated_objects@, old(self).activated_objects_p2@)
                ==> counts_fit(final(self).checkpoints@, final(self).activated_objects@, final(self).activated_objects_p2@),
            final(self).active == active,
            final(self).auto_hold == old(self).auto_hold,
            final(self).checkpoints@ == old(self).checkpoints@,
            final(self).activated_objects@ == old(self).activated_objects@,
            final(self).activated_objects_p2@ == old(self).activated_objects_p2@,
    {
        self.active = active;
    }

    /// Turns auto hold (no clicks queued on restore) on or off.
    pub fn set_auto_hold(&mut self, auto_hold: bool)
        ensures
            counts_fit(old(self).checkpoints@, old(self).activated_objects@, old(self).activated_objects_p2@)
                ==> counts_fit(final(self).checkpoints@, final(self).activated_objects@, final(self).activated_objects_p2@),
            final(self).auto_hold == auto_hold,
            final(self).active == old(self).active,
            final(self).checkpoints@ == old(self).checkpoints@,
            final(self).activated_objects@ == old(self).activated_objects@,
            final(self).activated_objects_p2@ == old(self).activated_objects_p2@,
    {
        self.auto_hold = auto_hold;
    }
}

/// Restarting in practice mode keeps, for each player, exactly the objects
/// that the last checkpoint counted: the first ones used, as many as it
/// counted.
pub proof fn restart_keeps_counted_objects(cs: Seq<Checkpoint>, objs: Seq<GameObject>, objs_p2: Seq<GameObject>)
    requires
        counts_fit(cs, objs, objs_p2),
        cs.len() > 0,
    ensures
        kept_objects(objs, cs.last().number_of_activated_objects) == objs.take(
            cs.last().number_of_activated_objects as int,
        ),
        kept_objects(objs, cs.last().number_of_activated_objects).len()
            == cs.last().number_of_activated_objects,
        kept_objects(objs_p2, cs.last().number_of_activated_objects_p2) == objs_p2.take(
            cs.last().number_of_activated_objects_p2 as int,
        ),
        kept_objects(objs_p2, cs.last().number_of_activated_objects_p2).len()
            == cs.last().number_of_activated_objects_p2,
{
    let last = cs[cs.len() - 1];
    assert(last.number_of_activated_objects <= objs.len());
    assert(last.number_of_activated_objects_p2 <= objs_p2.len());
    assert(objs.take(objs.len() as int) =~= objs);
    assert(objs_p2.take(objs_p2.len() as int) =~= objs_p2);
}

/// A checkpoint saved now, and restarted from before any other is saved or
/// object used, keeps every object used so far; saving keeps the counts
/// fitting.
pub proof fn checkpoint_then_restart_keeps_all_objects(
    cs: Seq<Checkpoint>,
    objs: Seq<GameObject>,
    objs_p2: Seq<GameObject>,
    cp: Checkpoint,
)
    requires
        counts_fit(cs, objs, objs_p2),
        cp.number_of_activated_objects == objs.len(),
        cp.number_of_activated_objects_p2 == objs_p2.len(),
    ensures
        counts_fit(cs.push(cp), objs, objs_p2),
        kept_objects(objs, cp.number_of_activated_objects) == objs,
        kept_objects(objs_p2, cp.number_of_activated_objects_p2) == objs_p2,
{
    let ncs = cs.push(cp);
    assert forall|i: int, j: int| 0 <= i < j < ncs.len() implies (#[trigger] ncs[i]).number_of_activated_objects
        <= (#[trigger] ncs[j]).number_of_activated_objects
        && ncs[i].number_of_activated_objects_p2 <= ncs[j].number_of_activated_objects_p2 by {
        assert(ncs[i] == cs[i]);
        if j < cs.len() {
            assert(ncs[j] == cs[j]);
        }
    }
    assert forall|i: int| 0 <= i < ncs.len() implies (#[trigger] ncs[i]).number_of_activated_objects <= objs.len()
        && ncs[i].number_of_activated_objects_p2 <= objs_p2.len() by {
        if i < cs.len() {
            assert(ncs[i] == cs[i]);
        }
    }
}

/// Restoring a saved hold state makes a change exactly when it differs from
/// the player's current one; the change queues a press when the player holds
/// the button now, and a release when not.
pub proof fn hold_change_only_on_difference(saved: bool, current: bool)
    ensures
        (hold_change_of(saved, current) == 0) == (saved == current),
        saved != current ==> (hold_change_of(saved, current) == 2) == current,
        saved != current ==> (change_click(hold_change_of(saved, current), false) is Player1Down) == current,
        saved != current ==> (change_click(hold_change_of(saved, current), true) is Player2Down) == current,
{
}

} // verus!
