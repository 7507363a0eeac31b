use vstd::prelude::*;

verus! {

/// A count of holders that keeps the game's update from running while any
/// holds it; once deactivated it lets everything through.
pub struct MutexCount {
    pub lock: usize,
    pub active: bool,
}

/// The count after taking a hold: one more holder, when active.
pub open spec fn after_lock(m: MutexCount) -> MutexCount {
    if m.active {
        MutexCount { lock: (m.lock + 1) as usize, active: m.active }
    } else {
        m
    }
}

/// The count after giving back a hold: one holder fewer, when active and held.
pub open spec fn after_unlock(m: MutexCount) -> MutexCount {
    if m.active && m.lock != 0 {
        MutexCount { lock: (m.lock - 1) as usize, active: m.active }
    } else {
        m
    }
}

impl Default for MutexCount {
    /// An active count with no holders.
    fn default() -> (r: Self)
        ensures
            r.lock == 0,
            r.active,
    {
        MutexCount { lock: 0, active: true }
    }
}

impl MutexCount {
    /// Whether the update may run: the count is inactive or nobody holds it.
    pub fn wait(&self) -> (r: bool)
        ensures
            r == (!self.active || self.lock == 0),
    {
        !self.active || self.lock == 0
    }

    /// Takes a hold, when active.
    pub fn lock(&mut self)
        requires
            old(self).active ==> old(self).lock < usize::MAX,
        ensures
            *final(self) == after_lock(*old(self)),
    {
        if self.active {
            self.lock += 1;
        }
    }

    /// Gives back a hold, when active and held.
    pub fn unlock(&mut self)
        ensures
            *final(self) == after_unlock(*old(self)),
    {
        if self.active && self.lock != 0 {
            self.lock -= 1;
        }
    }

    /// Drops every hold.
    pub fn clear(&mut self)
        ensures
            final(self).active == old(self).active,
            final(self).lock == 0,
    {
        self.lock = 0;
    }

    /// Stops the count from holding anything back.
    pub fn deactivate(&mut self)
        ensures
            !final(self).active,
            final(self).lock == old(self).lock,
    {
        self.active = false;
    }
}

/// Taking and giving back a hold leaves the count as it was.
pub proof fn lock_then_unlock(m: MutexCount)
    requires
        m.active ==> m.lock < usize::MAX,
    ensures
        after_unlock(after_lock(m)) == m,
{
}

/// A deactivated count lets the update run, whatever holds are taken or
/// given back.
pub proof fn inactive_never_blocks(m: MutexCount)
    requires
        !m.active,
    ensures
        after_lock(m) == m,
        after_unlock(m) == m,
        !after_lock(m).active || after_lock(m).lock == 0,
{
}

} // verus!
