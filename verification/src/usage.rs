//! The usage tag: a decorator that relates what it wraps to a type.

use std::any::TypeId;
use std::marker::PhantomData;
use std::ops::Deref;
use vstd::prelude::*;

verus! {

/// `std::any::TypeId`, which is carried through and never looked into.
#[verifier::external_type_specification]
#[verifier::external_body]
pub struct ExTypeId(TypeId);

/// `TypeId::of` gives the identifier of a type. The identifier is opaque and
/// differs from one build to the next, so nothing is claimed of it.
pub assume_specification<T: ?Sized + 'static>[ TypeId::of::<T> ]() -> (id: TypeId)
;

/// A tag for stacks that need none in particular.
pub struct UsageTag;

/// Wraps a value and tags it, in its type alone, as related to `U`.
pub struct Usage<U, T> {
    pub data: T,
    pub _phantom: PhantomData<U>,
}

impl<U, T> Usage<U, T> {
    /// Wraps `data`. The tag has no state.
    #[verifier::allow_in_spec]
    pub fn new(data: T) -> (wrapped: Self)
        returns
            (Usage::<U, T> { data, _phantom: PhantomData }),
    {
        Usage { data, _phantom: PhantomData }
    }
}

impl<U, T> Deref for Usage<U, T> {
    type Target = T;

    /// One level of unwrapping.
    fn deref(&self) -> (inner: &T)
        ensures
            *inner == self.data,
    {
        &self.data
    }
}

/// Host of the usage tag's method. `Usage` alone implements it; a stack that
/// holds a `Usage` anywhere reaches the method by dereferencing.
pub trait UsageTrait {
    type Usage;

    /// The identifier of the tag type.
    fn type_id(&self) -> TypeId where Self::Usage: 'static {
        TypeId::of::<Self::Usage>()
    }
}

impl<U: 'static, T> UsageTrait for Usage<U, T> {
    type Usage = U;
}

} // verus!
