//! What a piece of capability configuration means to the layer that owns it.

use vstd::prelude::*;

verus! {

/// A value that configures one capability of a stack, as `With::with` takes it.
pub trait Capability: Sized {
    /// What the owning layer keeps of the capability.
    type State;

    /// Whether applying this configuration may leave `state` in the owning layer.
    spec fn sets(self, state: Self::State) -> bool;

    /// Whether `state` is what a newly made layer holds.
    spec fn initial(state: Self::State) -> bool;
}

} // verus!
