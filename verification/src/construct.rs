//! Building a whole stack from its payload.

use crate::changed::ChangedWrap;
use crate::depth::{S, Z};
use crate::label::LabelWrap;
use crate::usage::Usage;
use vstd::prelude::*;

verus! {

/// A stack that can be built around a payload of type `T` which lies `I`
/// layers below its outermost layer.
pub trait Construct<T, I>: Sized {
    /// The stack around `t` in which every layer is newly made.
    spec fn built(t: T) -> Self;

    /// The payload under the layers of this stack.
    spec fn payload(&self) -> T;

    /// Wraps `t` in every layer of the stack, innermost first.
    fn construct(t: T) -> (stack: Self)
        ensures
            stack == Self::built(t),
    ;

    /// A newly built stack holds the payload it was built around.
    proof fn lemma_built_payload(t: T)
        ensures
            Self::built(t).payload() == t,
    ;
}

impl<T, U> Construct<T, Z> for Usage<U, T> {
    open spec fn built(t: T) -> Self {
        Usage::new(t)
    }

    open spec fn payload(&self) -> T {
        self.data
    }

    fn construct(t: T) -> (stack: Self)
        ensures
            stack == Usage::<U, T>::new(t),
    {
        Usage::new(t)
    }

    proof fn lemma_built_payload(t: T) {
    }
}

impl<T, I, U, N> Construct<T, S<I>> for Usage<U, N> where N: Construct<T, I> {
    open spec fn built(t: T) -> Self {
        Usage::new(N::built(t))
    }

    open spec fn payload(&self) -> T {
        self.data.payload()
    }

    fn construct(t: T) -> (stack: Self)
        ensures
            stack == Usage::<U, N>::new(N::built(t)),
    {
        Usage::new(N::construct(t))
    }

    proof fn lemma_built_payload(t: T) {
        N::lemma_built_payload(t);
    }
}

impl<T> Construct<T, Z> for LabelWrap<T> {
    open spec fn built(t: T) -> Self {
        LabelWrap::new(t)
    }

    open spec fn payload(&self) -> T {
        self.data
    }

    fn construct(t: T) -> (stack: Self)
        ensures
            stack == LabelWrap::new(t),
    {
        LabelWrap::new(t)
    }

    proof fn lemma_built_payload(t: T) {
    }
}

impl<T, I, N> Construct<T, S<I>> for LabelWrap<N> where N: Construct<T, I> {
    open spec fn built(t: T) -> Self {
        LabelWrap::new(N::built(t))
    }

    open spec fn payload(&self) -> T {
        self.data.payload()
    }

    fn construct(t: T) -> (stack: Self)
        ensures
            stack == LabelWrap::new(N::built(t)),
    {
        LabelWrap::new(N::construct(t))
    }

    proof fn lemma_built_payload(t: T) {
        N::lemma_built_payload(t);
    }
}

impl<T> Construct<T, Z> for ChangedWrap<T> {
    open spec fn built(t: T) -> Self {
        ChangedWrap::new(t)
    }

    open spec fn payload(&self) -> T {
        self.data
    }

    fn construct(t: T) -> (stack: Self)
        ensures
            stack == ChangedWrap::new(t),
    {
        ChangedWrap::new(t)
    }

    proof fn lemma_built_payload(t: T) {
    }
}

impl<T, I, N> Construct<T, S<I>> for ChangedWrap<N> where N: Construct<T, I> {
    open spec fn built(t: T) -> Self {
        ChangedWrap::new(N::built(t))
    }

    open spec fn payload(&self) -> T {
        self.data.payload()
    }

    fn construct(t: T) -> (stack: Self)
        ensures
            stack == ChangedWrap::new(N::built(t)),
    {
        ChangedWrap::new(N::construct(t))
    }

    proof fn lemma_built_payload(t: T) {
        N::lemma_built_payload(t);
    }
}

} // verus!
