//! Configuring one capability inside a stack.

use crate::capability::Capability;
use crate::changed::{Changed, ChangedFlagTrait, ChangedWrap};
use crate::depth::{S, Z};
use crate::label::{Label, LabelTrait, LabelWrap};
use crate::usage::Usage;
use std::borrow::Cow;
use vstd::prelude::*;

verus! {

/// A stack in which the layer that owns the capability `T` lies `I` layers
/// below the outermost one. The stack is its own builder: `with` takes it by
/// value and gives it back with that one layer configured.
pub trait With<T: Capability, I>: Sized {
    /// What the owning layer holds.
    spec fn held(&self) -> T::State;

    /// This stack with `state` in the owning layer and all else as it is.
    spec fn replaced(self, state: T::State) -> Self;

    /// Applies `t` to the layer that owns it. Every other layer and the
    /// payload stay as they are.
    fn with(self, t: T) -> (stack: Self)
        ensures
            t.sets(stack.held()),
            stack == self.replaced(stack.held()),
    ;

    /// What was put into the owning layer is what it holds.
    proof fn lemma_replaced_held(self, state: T::State)
        ensures
            self.replaced(state).held() == state,
    ;

    /// Putting back what the owning layer holds changes nothing.
    proof fn lemma_held_replaced(self)
        ensures
            self.replaced(self.held()) == self,
    ;

    /// Of two states put in one after the other, the second alone remains.
    proof fn lemma_replaced_twice(self, first: T::State, second: T::State)
        ensures
            self.replaced(first).replaced(second) == self.replaced(second),
    ;
}

/// Whether `after` is a stack that `before.with(t)` may return.
pub open spec fn applied<X, T, I>(before: X, t: T, after: X) -> bool where
    X: With<T, I>,
    T: Capability,
 {
    &&& t.sets(after.held())
    &&& after == before.replaced(after.held())
}

impl<T> With<Changed, Z> for ChangedWrap<T> {
    open spec fn held(&self) -> bool {
        self.changed
    }

    open spec fn replaced(self, state: bool) -> Self {
        ChangedWrap { data: self.data, changed: state }
    }

    fn with(self, t: Changed) -> (stack: Self)
        ensures
            stack == (ChangedWrap { data: self.data, changed: t.0 }),
    {
        let mut stack = self;
        stack.set_changed(t.0);
        stack
    }

    proof fn lemma_replaced_held(self, state: bool) {
    }

    proof fn lemma_held_replaced(self) {
    }

    proof fn lemma_replaced_twice(self, first: bool, second: bool) {
    }
}

impl<T, I, N> With<T, S<I>> for ChangedWrap<N> where T: Capability, N: With<T, I> {
    open spec fn held(&self) -> T::State {
        self.data.held()
    }

    open spec fn replaced(self, state: T::State) -> Self {
        ChangedWrap { data: self.data.replaced(state), changed: self.changed }
    }

    fn with(self, t: T) -> (stack: Self)
        ensures
            stack.changed == self.changed,
            applied(self.data, t, stack.data),
    {
        let mut stack = self;
        stack.data = stack.data.with(t);
        stack
    }

    proof fn lemma_replaced_held(self, state: T::State) {
        self.data.lemma_replaced_held(state);
    }

    proof fn lemma_held_replaced(self) {
        self.data.lemma_held_replaced();
    }

    proof fn lemma_replaced_twice(self, first: T::State, second: T::State) {
        self.data.lemma_replaced_twice(first, second);
    }
}

impl<L, T> With<Label<L>, Z> for LabelWrap<T> where L: Into<Cow<'static, str>> {
    open spec fn held(&self) -> Cow<'static, str> {
        self.label
    }

    open spec fn replaced(self, state: Cow<'static, str>) -> Self {
        LabelWrap { data: self.data, label: state }
    }

    fn with(self, t: Label<L>) -> (stack: Self)
        ensures
            stack.data == self.data,
            t.sets(stack.label),
    {
        let mut stack = self;
        stack.set_label(t.0);
        stack
    }

    proof fn lemma_replaced_held(self, state: Cow<'static, str>) {
    }

    proof fn lemma_held_replaced(self) {
    }

    proof fn lemma_replaced_twice(self, first: Cow<'static, str>, second: Cow<'static, str>) {
    }
}

impl<T, I, N> With<T, S<I>> for LabelWrap<N> where T: Capability, N: With<T, I> {
    open spec fn held(&self) -> T::State {
        self.data.held()
    }

    open spec fn replaced(self, state: T::State) -> Self {
        LabelWrap { data: self.data.replaced(state), label: self.label }
    }

    fn with(self, t: T) -> (stack: Self)
        ensures
            stack.label == self.label,
            applied(self.data, t, stack.data),
    {
        let mut stack = self;
        stack.data = stack.data.with(t);
        stack
    }

    proof fn lemma_replaced_held(self, state: T::State) {
        self.data.lemma_replaced_held(state);
    }

    proof fn lemma_held_replaced(self) {
        self.data.lemma_held_replaced();
    }

    proof fn lemma_replaced_twice(self, first: T::State, second: T::State) {
        self.data.lemma_replaced_twice(first, second);
    }
}

impl<T, I, U, N> With<T, S<I>> for Usage<U, N> where T: Capability, N: With<T, I> {
    open spec fn held(&self) -> T::State {
        self.data.held()
    }

    open spec fn replaced(self, state: T::State) -> Self {
        Usage { data: self.data.replaced(state), _phantom: self._phantom }
    }

    fn with(self, t: T) -> (stack: Self)
        ensures
            applied(self.data, t, stack.data),
    {
        let mut stack = self;
        stack.data = stack.data.with(t);
        stack
    }

    proof fn lemma_replaced_held(self, state: T::State) {
        self.data.lemma_replaced_held(state);
    }

    proof fn lemma_held_replaced(self) {
        self.data.lemma_held_replaced();
    }

    proof fn lemma_replaced_twice(self, first: T::State, second: T::State) {
        self.data.lemma_replaced_twice(first, second);
    }
}

} // verus!
