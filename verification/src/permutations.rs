//! The six orders in which the three decorators can wrap a payload, each
//! configured and read through its outermost value.

use crate::changed::{Changed, ChangedFlagTrait, ChangedWrap};
use crate::construct::Construct;
use crate::label::{Label, LabelTrait, LabelWrap};
use crate::usage::{Usage, UsageTag, UsageTrait};
use crate::with::With;
use std::any::TypeId;
use vstd::prelude::*;

verus! {

pub type UsageChangedLabel<T> = Usage<UsageTag, ChangedWrap<LabelWrap<T>>>;

pub type UsageLabelChanged<T> = Usage<UsageTag, LabelWrap<ChangedWrap<T>>>;

pub type ChangedUsageLabel<T> = ChangedWrap<Usage<UsageTag, LabelWrap<T>>>;

pub type ChangedLabelUsage<T> = ChangedWrap<LabelWrap<Usage<UsageTag, T>>>;

pub type LabelUsageChanged<T> = LabelWrap<Usage<UsageTag, ChangedWrap<T>>>;

pub type LabelChangedUsage<T> = LabelWrap<ChangedWrap<Usage<UsageTag, T>>>;

/// What the three capabilities of one stack read.
pub struct Reading {
    pub changed: bool,
    pub type_id: TypeId,
    pub label: String,
}

impl Reading {
    /// Whether the flag and the label are the given ones.
    pub open spec fn shows(self, changed: bool, label: Seq<char>) -> bool {
        self.changed == changed && self.label@ == label
    }
}

/// The readings of the six orders, each named by its layers from the
/// outermost inward.
pub struct Permutations {
    pub usage_changed_label: Reading,
    pub usage_label_changed: Reading,
    pub changed_usage_label: Reading,
    pub changed_label_usage: Reading,
    pub label_usage_changed: Reading,
    pub label_changed_usage: Reading,
}

impl Permutations {
    /// Whether each order reads the flag and the label that it was given.
    pub open spec fn as_configured(self) -> bool {
        &&& self.usage_changed_label.shows(true, "one"@)
        &&& self.usage_label_changed.shows(true, "two"@)
        &&& self.changed_usage_label.shows(false, "three"@)
        &&& self.changed_label_usage.shows(false, "four"@)
        &&& self.label_usage_changed.shows(true, "five"@)
        &&& self.label_changed_usage.shows(false, "six"@)
    }
}

pub fn read_usage_changed_label<T>(stack: &UsageChangedLabel<T>) -> (reading: Reading)
    ensures
        reading.shows(stack.data.changed, stack.data.data.label@),
{
    Reading {
        changed: stack.get_changed(),
        type_id: stack.type_id(),
        label: stack.get_label().to_owned(),
    }
}

pub fn read_usage_label_changed<T>(stack: &UsageLabelChanged<T>) -> (reading: Reading)
    ensures
        reading.shows(stack.data.data.changed, stack.data.label@),
{
    Reading {
        changed: stack.get_changed(),
        type_id: stack.type_id(),
        label: stack.get_label().to_owned(),
    }
}

pub fn read_changed_usage_label<T>(stack: &ChangedUsageLabel<T>) -> (reading: Reading)
    ensures
        reading.shows(stack.changed, stack.data.data.label@),
{
    Reading {
        changed: stack.get_changed(),
        type_id: stack.type_id(),
        label: stack.get_label().to_owned(),
    }
}

pub fn read_changed_label_usage<T>(stack: &ChangedLabelUsage<T>) -> (reading: Reading)
    ensures
        reading.shows(stack.changed, stack.data.label@),
{
    Reading {
        changed: stack.get_changed(),
        type_id: stack.type_id(),
        label: stack.get_label().to_owned(),
    }
}

pub fn read_label_usage_changed<T>(stack: &LabelUsageChanged<T>) -> (reading: Reading)
    ensures
        reading.shows(stack.data.data.changed, stack.label@),
{
    Reading {
        changed: stack.get_changed(),
        type_id: stack.type_id(),
        label: stack.get_label().to_owned(),
    }
}

pub fn read_label_changed_usage<T>(stack: &LabelChangedUsage<T>) -> (reading: Reading)
    ensures
        reading.shows(stack.data.changed, stack.label@),
{
    Reading {
        changed: stack.get_changed(),
        type_id: stack.type_id(),
        label: stack.get_label().to_owned(),
    }
}

/// Builds each order by nesting `new`, configures the flag and the label,
/// and reads all three capabilities.
pub fn nested() -> (readings: Permutations)
    ensures
        readings.as_configured(),
{
    let usage_changed_label = Usage::<UsageTag, _>::new(ChangedWrap::new(LabelWrap::new(1234i32)))
        .with(Changed(true)).with(Label("one"));
    let usage_label_changed = Usage::<UsageTag, _>::new(LabelWrap::new(ChangedWrap::new(1234i32)))
        .with(Changed(true)).with(Label("two"));
    let changed_usage_label = ChangedWrap::new(Usage::<UsageTag, _>::new(LabelWrap::new(1234i32)))
        .with(Changed(false)).with(Label("three"));
    let changed_label_usage = ChangedWrap::new(LabelWrap::new(Usage::<UsageTag, _>::new(1234i32)))
        .with(Changed(false)).with(Label("four"));
    let label_usage_changed = LabelWrap::new(Usage::<UsageTag, _>::new(ChangedWrap::new(1234i32)))
        .with(Changed(true)).with(Label("five"));
    let label_changed_usage = LabelWrap::new(ChangedWrap::new(Usage::<UsageTag, _>::new(1234i32)))
        .with(Changed(false)).with(Label("six"));
    Permutations {
        usage_changed_label: read_usage_changed_label(&usage_changed_label),
        usage_label_changed: read_usage_label_changed(&usage_label_changed),
        changed_usage_label: read_changed_usage_label(&changed_usage_label),
        changed_label_usage: read_changed_label_usage(&changed_label_usage),
        label_usage_changed: read_label_usage_changed(&label_usage_changed),
        label_changed_usage: read_label_changed_usage(&label_changed_usage),
    }
}

/// Builds each order by `construct`, around payloads of six integer types,
/// configures the flag and the label, and reads all three capabilities.
pub fn constructed() -> (readings: Permutations)
    ensures
        readings.as_configured(),
{
    let usage_changed_label = UsageChangedLabel::<u8>::construct(1).with(Changed(true)).with(
        Label("one"),
    );
    let usage_label_changed = UsageLabelChanged::<u16>::construct(2).with(Changed(true)).with(
        Label("two"),
    );
    let changed_usage_label = ChangedUsageLabel::<u32>::construct(3).with(Changed(false)).with(
        Label("three"),
    );
    let changed_label_usage = ChangedLabelUsage::<u64>::construct(4).with(Changed(false)).with(
        Label("four"),
    );
    let label_usage_changed = LabelUsageChanged::<u128>::construct(5).with(Changed(true)).with(
        Label("five"),
    );
    let label_changed_usage = LabelChangedUsage::<usize>::construct(6).with(Changed(false)).with(
        Label("six"),
    );
    Permutations {
        usage_changed_label: read_usage_changed_label(&usage_changed_label),
        usage_label_changed: read_usage_label_changed(&usage_label_changed),
        changed_usage_label: read_changed_usage_label(&changed_usage_label),
        changed_label_usage: read_changed_label_usage(&changed_label_usage),
        label_usage_changed: read_label_usage_changed(&label_usage_changed),
        label_changed_usage: read_label_changed_usage(&label_changed_usage),
    }
}

} // verus!
