//! The changed flag: a decorator that adds one boolean to what it wraps.

use crate::capability::Capability;
use std::ops::Deref;
use vstd::prelude::*;

verus! {

/// Wraps a value and remembers whether it was marked as changed.
pub struct ChangedWrap<T> {
    pub data: T,
    pub changed: bool,
}

/// Configuration of the changed flag.
pub struct Changed(pub bool);

impl<T> ChangedWrap<T> {
    /// Wraps `data` with the flag lowered.
    #[verifier::allow_in_spec]
    pub fn new(data: T) -> (wrapped: Self)
        returns
            (ChangedWrap { data, changed: false }),
    {
        ChangedWrap { data, changed: false }
    }
}

impl<T> Deref for ChangedWrap<T> {
    type Target = T;

    /// One level of unwrapping.
    fn deref(&self) -> (inner: &T)
        ensures
            *inner == self.data,
    {
        &self.data
    }
}

/// Host of the changed flag's methods. `ChangedWrap` alone implements it; a
/// stack that holds a `ChangedWrap` anywhere reaches the methods by
/// dereferencing.
pub trait ChangedFlagTrait<T>: Sized {
    fn get_changed(&self) -> bool;

    fn set_changed(&mut self, changed: bool);
}

impl<T> ChangedFlagTrait<T> for ChangedWrap<T> {
    fn get_changed(&self) -> (changed: bool)
        ensures
            changed == self.changed,
    {
        self.changed
    }

    fn set_changed(&mut self, changed: bool)
        ensures
            *final(self) == (ChangedWrap { data: old(self).data, changed }),
    {
        self.changed = changed;
    }
}

impl Capability for Changed {
    type State = bool;

    open spec fn sets(self, state: bool) -> bool {
        state == self.0
    }

    open spec fn initial(state: bool) -> bool {
        !state
    }
}

} // verus!
