//! Depth indices: natural numbers at the type level.
//!
//! An index says how many layers lie between the outside of a stack and the
//! layer that is meant. It selects an impl and is never built at run time.

use std::marker::PhantomData;
use vstd::prelude::*;

verus! {

/// Depth zero: the outermost layer itself.
pub struct Z;

/// One layer further in than `T`.
pub struct S<T>(PhantomData<T>);

} // verus!
