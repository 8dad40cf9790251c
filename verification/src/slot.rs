//! A shared reference that is set at most once and read thereafter.
//!
//! Initialization of the externally supplied file-handling
//! collaborator is idempotent-at-most-once: the first attempt stores
//! the value, every later attempt is silently ignored rather than
//! erroring.

use vstd::prelude::*;

verus! {

/// A slot holding at most one value, fixed by the first `set`.
pub struct OnceSlot<T> {
    value: Option<T>,
}

impl<T> OnceSlot<T> {
    /// What the slot currently holds.
    pub closed spec fn stored(&self) -> Option<T> {
        self.value
    }

    /// A slot that holds nothing yet.
    pub fn empty() -> (s: Self)
        ensures
            s.stored() is None,
    {
        OnceSlot { value: None }
    }

    /// Store `v` if the slot is still empty; a second attempt leaves
    /// the first value in place and reports that it was ignored.
    pub fn set(&mut self, v: T) -> (accepted: bool)
        ensures
            old(self).stored() is None ==> final(self).stored() == Some(v) && accepted,
            old(self).stored() is Some ==> final(self).stored() == old(self).stored()
                && !accepted,
    {
        match &self.value {
            None => {
                self.value = Some(v);
                true
            }
            Some(_) => false,
        }
    }

    /// Read the stored value, if any.
    pub fn get(&self) -> (r: Option<&T>)
        ensures
            match r {
                Some(x) => self.stored() == Some(*x),
                None => self.stored() is None,
            },
    {
        self.value.as_ref()
    }
}

} // verus!
