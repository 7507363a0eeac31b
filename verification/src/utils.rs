use vstd::prelude::*;

verus! {

/// A handle to an object of the game, given by its address; address 0 is
/// the null handle.
pub trait IsNull {
    /// The address the handle holds.
    spec fn handle_address(&self) -> usize;

    /// Whether the handle is null.
    fn is_null(&self) -> (r: bool)
        ensures
            r == (self.handle_address() == 0),
    ;

    /// The handle itself; it must not be null.
    fn expect(&self, error: &str) -> (r: &Self)
        requires
            self.handle_address() != 0,
        ensures
            r == self,
    {
        self
    }

    /// `f` applied to the handle, or `None` for a null handle.
    fn if_not_null<T, F: FnOnce(&Self) -> T>(&self, f: F) -> (r: Option<T>)
        requires
            self.handle_address() != 0 ==> f.requires((self,)),
        ensures
            self.handle_address() == 0 ==> r is None,
            self.handle_address() != 0 ==> r is Some && f.ensures((self,), r.unwrap()),
    {
        if !self.is_null() {
            Some(f(self))
        } else {
            None
        }
    }
}

} // verus!
