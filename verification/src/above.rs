//! Every capability of a stack lies above its payload: configuring the
//! capability leaves the payload as it was, and a newly built stack holds
//! the capability in its initial state.

use crate::capability::Capability;
use crate::changed::{Changed, ChangedWrap};
use crate::construct::Construct;
use crate::depth::{S, Z};
use crate::label::{Label, LabelWrap};
use crate::usage::Usage;
use crate::with::{applied, With};
use std::borrow::Cow;
use vstd::prelude::*;

verus! {

/// A stack that owns the capability `C` at depth `J`, around a payload of
/// type `T` at depth `K`.
pub trait Above<C: Capability, J, T, K>: With<C, J> + Construct<T, K> {
    /// A state put into the owning layer leaves the payload.
    proof fn lemma_replaced_payload(self, state: C::State)
        ensures
            self.replaced(state).payload() == self.payload(),
    ;

    /// In a newly built stack the owning layer holds an initial state.
    proof fn lemma_built_held(t: T)
        ensures
            C::initial(Self::built(t).held()),
    ;
}

impl<T> Above<Changed, Z, T, Z> for ChangedWrap<T> {
    proof fn lemma_replaced_payload(self, state: bool) {
    }

    proof fn lemma_built_held(t: T) {
    }
}

impl<T, K, N> Above<Changed, Z, T, S<K>> for ChangedWrap<N> where N: Construct<T, K> {
    proof fn lemma_replaced_payload(self, state: bool) {
    }

    proof fn lemma_built_held(t: T) {
    }
}

impl<C, J, T, K, N> Above<C, S<J>, T, S<K>> for ChangedWrap<N> where
    C: Capability,
    N: Above<C, J, T, K>,
 {
    proof fn lemma_replaced_payload(self, state: C::State) {
        self.data.lemma_replaced_payload(state);
    }

    proof fn lemma_built_held(t: T) {
        N::lemma_built_held(t);
    }
}

impl<L, T> Above<Label<L>, Z, T, Z> for LabelWrap<T> where L: Into<Cow<'static, str>> {
    proof fn lemma_replaced_payload(self, state: Cow<'static, str>) {
    }

    proof fn lemma_built_held(t: T) {
        LabelWrap::<T>::lemma_unlabelled_is_empty();
    }
}

impl<L, T, K, N> Above<Label<L>, Z, T, S<K>> for LabelWrap<N> where
    L: Into<Cow<'static, str>>,
    N: Construct<T, K>,
 {
    proof fn lemma_replaced_payload(self, state: Cow<'static, str>) {
    }

    proof fn lemma_built_held(t: T) {
        LabelWrap::<N>::lemma_unlabelled_is_empty();
    }
}

impl<C, J, T, K, N> Above<C, S<J>, T, S<K>> for LabelWrap<N> where
    C: Capability,
    N: Above<C, J, T, K>,
 {
    proof fn lemma_replaced_payload(self, state: C::State) {
        self.data.lemma_replaced_payload(state);
    }

    proof fn lemma_built_held(t: T) {
        N::lemma_built_held(t);
    }
}

impl<U, C, J, T, K, N> Above<C, S<J>, T, S<K>> for Usage<U, N> where
    C: Capability,
    N: Above<C, J, T, K>,
 {
    proof fn lemma_replaced_payload(self, state: C::State) {
        self.data.lemma_replaced_payload(state);
    }

    proof fn lemma_built_held(t: T) {
        N::lemma_built_held(t);
    }
}

/// `with` never touches the payload: the stack it returns wraps the value
/// that the stack it took wrapped.
pub proof fn law_with_keeps_payload<X, C, J, T, K>(before: X, c: C, after: X) where
    X: Above<C, J, T, K>,
    C: Capability,
    requires
        applied::<X, C, J>(before, c, after),
    ensures
        after.payload() == before.payload(),
{
    before.lemma_replaced_payload(after.held());
}

/// A stack built by `construct` wraps the payload it was given and holds
/// each of its capabilities as `new` leaves it: the flag lowered, the label
/// empty.
pub proof fn law_construct_defaults<X, C, J, T, K>(t: T) where
    X: Above<C, J, T, K>,
    C: Capability,
    ensures
        X::built(t).payload() == t,
        C::initial(X::built(t).held()),
{
    X::lemma_built_payload(t);
    X::lemma_built_held(t);
}

} // verus!
