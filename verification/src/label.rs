//! The label: a decorator that adds a piece of text to what it wraps.

use crate::capability::Capability;
use std::borrow::Cow;
use std::ops::Deref;
use vstd::prelude::*;

verus! {

/// `Cow::from` on a string slice borrows the slice: the text of the result is
/// the text of the slice.
pub assume_specification<'a>[ <Cow<'a, str> as From<&'a str>>::from ](s: &'a str) -> (r: Cow<
    'a,
    str,
>)
    ensures
        r@ == s@,
;

/// Wraps a value and labels it.
pub struct LabelWrap<T> {
    pub data: T,
    pub label: Cow<'static, str>,
}

/// Configuration of the label: anything that converts into its text.
pub struct Label<T>(pub T) where T: Into<Cow<'static, str>>;

impl<T> LabelWrap<T> {
    /// The label of a newly wrapped value.
    pub open spec fn unlabelled() -> Cow<'static, str> {
        Cow::Borrowed("")
    }

    /// Wraps `data` with the empty label.
    #[verifier::allow_in_spec]
    pub fn new(data: T) -> (wrapped: Self)
        ensures
            wrapped.label@ == Seq::<char>::empty(),
        returns
            (LabelWrap { data, label: Self::unlabelled() }),
    {
        proof {
            Self::lemma_unlabelled_is_empty();
        }
        LabelWrap { data, label: Cow::Borrowed("") }
    }

    /// The empty label has no characters.
    pub proof fn lemma_unlabelled_is_empty()
        ensures
            Self::unlabelled()@ == Seq::<char>::empty(),
    {
        reveal_strlit("");
        assert(Self::unlabelled()@ =~= Seq::<char>::empty());
    }
}

impl<T> Deref for LabelWrap<T> {
    type Target = T;

    /// One level of unwrapping.
    fn deref(&self) -> (inner: &T)
        ensures
            *inner == self.data,
    {
        &self.data
    }
}

/// Host of the label's methods. `LabelWrap` alone implements it; a stack that
/// holds a `LabelWrap` anywhere reaches the methods by dereferencing.
pub trait LabelTrait<T>: Sized {
    fn get_label(&self) -> &str;

    fn set_label<L>(&mut self, label: L) where L: Into<Cow<'static, str>>;
}

impl<T> LabelTrait<T> for LabelWrap<T> {
    fn get_label(&self) -> (text: &str)
        ensures
            text@ == self.label@,
    {
        match &self.label {
            Cow::Borrowed(borrowed) => borrowed,
            Cow::Owned(owned) => owned.as_str(),
        }
    }

    fn set_label<L>(&mut self, label: L) where L: Into<Cow<'static, str>>
        ensures
            final(self).data == old(self).data,
            call_ensures(<L as Into<Cow<'static, str>>>::into, (label,), final(self).label),
    {
        self.label = label.into();
    }
}

impl<L> Capability for Label<L> where L: Into<Cow<'static, str>> {
    type State = Cow<'static, str>;

    open spec fn sets(self, state: Cow<'static, str>) -> bool {
        call_ensures(<L as Into<Cow<'static, str>>>::into, (self.0,), state)
    }

    open spec fn initial(state: Cow<'static, str>) -> bool {
        state@ == Seq::<char>::empty()
    }
}

} // verus!
