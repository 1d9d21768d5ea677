//! Two capabilities of one stack lie in different layers, whatever the order
//! of the layers: configuring one leaves the other as it was.

use crate::capability::Capability;
use crate::changed::{Changed, ChangedWrap};
use crate::depth::{S, Z};
use crate::label::{Label, LabelWrap};
use crate::usage::Usage;
use crate::with::{applied, With};
use std::borrow::Cow;
use vstd::prelude::*;

verus! {

/// A stack that owns the capability `A` at depth `I` and the capability `B`
/// at depth `J`, in two different layers.
pub trait Apart<A: Capability, I, B: Capability, J>: With<A, I> + With<B, J> {
    /// A state put into either layer leaves what the other layer holds, and
    /// the two layers can be filled in either order.
    proof fn lemma_apart(self, a: A::State, b: B::State)
        ensures
            With::<B, J>::held(&With::<A, I>::replaced(self, a)) == With::<B, J>::held(&self),
            With::<A, I>::held(&With::<B, J>::replaced(self, b)) == With::<A, I>::held(&self),
            With::<B, J>::replaced(With::<A, I>::replaced(self, a), b) == With::<A, I>::replaced(
                With::<B, J>::replaced(self, b),
                a,
            ),
    ;
}

impl<N, B, J> Apart<Changed, Z, B, S<J>> for ChangedWrap<N> where B: Capability, N: With<B, J> {
    proof fn lemma_apart(self, a: bool, b: B::State) {
    }
}

impl<N, A, I> Apart<A, S<I>, Changed, Z> for ChangedWrap<N> where A: Capability, N: With<A, I> {
    proof fn lemma_apart(self, a: A::State, b: bool) {
    }
}

impl<N, A, I, B, J> Apart<A, S<I>, B, S<J>> for ChangedWrap<N> where
    A: Capability,
    B: Capability,
    N: Apart<A, I, B, J>,
 {
    proof fn lemma_apart(self, a: A::State, b: B::State) {
        self.data.lemma_apart(a, b);
    }
}

impl<N, L, B, J> Apart<Label<L>, Z, B, S<J>> for LabelWrap<N> where
    L: Into<Cow<'static, str>>,
    B: Capability,
    N: With<B, J>,
 {
    proof fn lemma_apart(self, a: Cow<'static, str>, b: B::State) {
    }
}

impl<N, L, A, I> Apart<A, S<I>, Label<L>, Z> for LabelWrap<N> where
    L: Into<Cow<'static, str>>,
    A: Capability,
    N: With<A, I>,
 {
    proof fn lemma_apart(self, a: A::State, b: Cow<'static, str>) {
    }
}

impl<N, A, I, B, J> Apart<A, S<I>, B, S<J>> for LabelWrap<N> where
    A: Capability,
    B: Capability,
    N: Apart<A, I, B, J>,
 {
    proof fn lemma_apart(self, a: A::State, b: B::State) {
        self.data.lemma_apart(a, b);
    }
}

impl<U, N, A, I, B, J> Apart<A, S<I>, B, S<J>> for Usage<U, N> where
    A: Capability,
    B: Capability,
    N: Apart<A, I, B, J>,
 {
    proof fn lemma_apart(self, a: A::State, b: B::State) {
        self.data.lemma_apart(a, b);
    }
}

/// Non-interference. In a stack that holds a changed flag and a label, at
/// whatever depths, setting the label leaves the flag as it was and setting
/// the flag leaves the label as it was.
pub proof fn law_non_interference<X, I, J, L>(
    stack: X,
    flag: Changed,
    flagged: X,
    label: Label<L>,
    labelled: X,
) where X: Apart<Changed, I, Label<L>, J>, L: Into<Cow<'static, str>>
    requires
        applied::<X, Changed, I>(stack, flag, flagged),
        applied::<X, Label<L>, J>(stack, label, labelled),
    ensures
        With::<Changed, I>::held(&labelled) == With::<Changed, I>::held(&stack),
        With::<Label<L>, J>::held(&flagged) == With::<Label<L>, J>::held(&stack),
{
    stack.lemma_apart(With::<Changed, I>::held(&flagged), With::<Label<L>, J>::held(&labelled));
}

/// Order independence. Two stacks `x` and `y` hold a changed flag and a
/// label, each at depths of its own. After the same flag and the same label
/// are applied to both, both read the same flag, the one that was applied,
/// and the label of each is a text of the label that was applied: the same
/// text wherever the conversion of the label has one result only.
pub proof fn law_order_independence<X, XI, XJ, Y, YI, YJ, L>(
    x: X,
    y: Y,
    flag: Changed,
    label: Label<L>,
    x_flagged: X,
    x_done: X,
    y_flagged: Y,
    y_done: Y,
) where
    X: Apart<Changed, XI, Label<L>, XJ>,
    Y: Apart<Changed, YI, Label<L>, YJ>,
    L: Into<Cow<'static, str>>,
    requires
        applied::<X, Changed, XI>(x, flag, x_flagged),
        applied::<X, Label<L>, XJ>(x_flagged, label, x_done),
        applied::<Y, Changed, YI>(y, flag, y_flagged),
        applied::<Y, Label<L>, YJ>(y_flagged, label, y_done),
    ensures
        With::<Changed, XI>::held(&x_done) == flag.0,
        With::<Changed, YI>::held(&y_done) == flag.0,
        label.sets(With::<Label<L>, XJ>::held(&x_done)),
        label.sets(With::<Label<L>, YJ>::held(&y_done)),
        (forall|a: Cow<'static, str>, b: Cow<'static, str>|
            label.sets(a) && label.sets(b) ==> a@ == b@) ==> With::<Label<L>, XJ>::held(&x_done)@
            == With::<Label<L>, YJ>::held(&y_done)@,
{
    x_flagged.lemma_apart(
        With::<Changed, XI>::held(&x_flagged),
        With::<Label<L>, XJ>::held(&x_done),
    );
    y_flagged.lemma_apart(
        With::<Changed, YI>::held(&y_flagged),
        With::<Label<L>, YJ>::held(&y_done),
    );
}

/// Two capabilities of one stack can be configured in either order: the
/// states that reach the two layers give the same stack both ways.
pub proof fn law_either_order<X, A, I, B, J>(stack: X, a: A::State, b: B::State) where
    X: Apart<A, I, B, J>,
    A: Capability,
    B: Capability,
    ensures
        With::<B, J>::replaced(With::<A, I>::replaced(stack, a), b) == With::<A, I>::replaced(
            With::<B, J>::replaced(stack, b),
            a,
        ),
{
    stack.lemma_apart(a, b);
}

/// Idempotence. Setting the changed flag to one value twice in succession
/// gives the stack that setting it once gives.
pub proof fn law_changed_idempotent<X, I>(stack: X, flag: Changed, once: X, twice: X) where
    X: With<Changed, I>,
    requires
        applied::<X, Changed, I>(stack, flag, once),
        applied::<X, Changed, I>(once, flag, twice),
    ensures
        twice == once,
{
    stack.lemma_replaced_twice(flag.0, flag.0);
}

/// A functional update is confined to one layer: the stack before `with` is
/// the stack after it with the owning layer put back to what it held.
pub proof fn law_update_confined<X, T, I>(before: X, t: T, after: X) where
    X: With<T, I>,
    T: Capability,
    requires
        applied::<X, T, I>(before, t, after),
    ensures
        after.replaced(before.held()) == before,
{
    before.lemma_replaced_twice(after.held(), before.held());
    before.lemma_held_replaced();
}

} // verus!
