use vstd::prelude::*;

use crate::utils::IsNull;

verus! {

/// The cocos2d application object, given by its address.
#[derive(Clone, Copy, Debug, PartialEq, Eq, Structural)]
pub struct CCApplication {
    pub address: usize,
}

/// The cocos2d director, given by its address.
#[derive(Clone, Copy, Debug, PartialEq, Eq, Structural)]
pub struct SharedDirector {
    pub address: usize,
}

impl IsNull for CCApplication {
    open spec fn handle_address(&self) -> usize {
        self.address
    }

    fn is_null(&self) -> (r: bool) {
        self.address == 0
    }
}

impl From<usize> for CCApplication {
    fn from(address: usize) -> (r: Self) {
        CCApplication { address }
    }
}

impl vstd::std_specs::convert::FromSpecImpl<usize> for CCApplication {
    open spec fn obeys_from_spec() -> bool {
        true
    }

    open spec fn from_spec(v: usize) -> Self {
        CCApplication { address: v }
    }
}

impl SharedDirector {
    /// The address of the pointer to the director's scheduler.
    pub fn scheduler_address(&self) -> (r: usize)
        requires
            self.address + 0x48 <= usize::MAX,
        ensures
            r == self.address + 0x48,
    {
        self.address + 0x48
    }
}

impl IsNull for SharedDirector {
    open spec fn handle_address(&self) -> usize {
        self.address
    }

    fn is_null(&self) -> (r: bool) {
        self.address == 0
    }
}

impl From<usize> for SharedDirector {
    fn from(address: usize) -> (r: Self) {
        SharedDirector { address }
    }
}

impl vstd::std_specs::convert::FromSpecImpl<usize> for SharedDirector {
    open spec fn obeys_from_spec() -> bool {
        true
    }

    open spec fn from_spec(v: usize) -> Self {
        SharedDirector { address: v }
    }
}

} // verus!
