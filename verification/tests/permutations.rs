use decorator_stack::permutations::{
    constructed, nested, read_changed_label_usage, read_changed_usage_label,
    read_label_changed_usage, read_label_usage_changed, read_usage_changed_label,
    read_usage_label_changed, ChangedLabelUsage, ChangedUsageLabel, LabelChangedUsage,
    LabelUsageChanged, Permutations, UsageChangedLabel, UsageLabelChanged,
};
use decorator_stack::{Changed, Construct, Label, UsageTag, With};
use std::any::TypeId;

fn check(readings: &Permutations) {
    assert!(readings.usage_changed_label.changed);
    assert!(readings.usage_label_changed.changed);
    assert!(!readings.changed_usage_label.changed);
    assert!(!readings.changed_label_usage.changed);
    assert!(readings.label_usage_changed.changed);
    assert!(!readings.label_changed_usage.changed);
    assert_eq!(readings.usage_changed_label.label, "one");
    assert_eq!(readings.usage_label_changed.label, "two");
    assert_eq!(readings.changed_usage_label.label, "three");
    assert_eq!(readings.changed_label_usage.label, "four");
    assert_eq!(readings.label_usage_changed.label, "five");
    assert_eq!(readings.label_changed_usage.label, "six");
    let tag = TypeId::of::<UsageTag>();
    assert_eq!(readings.usage_changed_label.type_id, tag);
    assert_eq!(readings.usage_label_changed.type_id, tag);
    assert_eq!(readings.changed_usage_label.type_id, tag);
    assert_eq!(readings.changed_label_usage.type_id, tag);
    assert_eq!(readings.label_usage_changed.type_id, tag);
    assert_eq!(readings.label_changed_usage.type_id, tag);
}

#[test]
fn nested_reads_what_was_configured() {
    check(&nested());
}

#[test]
fn constructed_reads_what_was_configured() {
    check(&constructed());
}

#[test]
fn nested_and_constructed_agree() {
    let a = nested();
    let b = constructed();
    assert_eq!(a.usage_changed_label.changed, b.usage_changed_label.changed);
    assert_eq!(a.usage_changed_label.label, b.usage_changed_label.label);
    assert_eq!(a.label_changed_usage.changed, b.label_changed_usage.changed);
    assert_eq!(a.label_changed_usage.label, b.label_changed_usage.label);
    assert_eq!(a.changed_usage_label.type_id, b.changed_usage_label.type_id);
}

#[test]
fn read_functions_report_flag_label_and_tag() {
    let tag = TypeId::of::<UsageTag>();
    let one = UsageChangedLabel::<u8>::construct(0).with(Changed(true)).with(Label("a"));
    let reading = read_usage_changed_label(&one);
    assert!(reading.changed);
    assert_eq!(reading.label, "a");
    assert_eq!(reading.type_id, tag);
    let two = UsageLabelChanged::<u8>::construct(0).with(Label("b"));
    let reading = read_usage_label_changed(&two);
    assert!(!reading.changed);
    assert_eq!(reading.label, "b");
    assert_eq!(reading.type_id, tag);
    let three = ChangedUsageLabel::<u8>::construct(0).with(Changed(true));
    let reading = read_changed_usage_label(&three);
    assert!(reading.changed);
    assert_eq!(reading.label, "");
    assert_eq!(reading.type_id, tag);
    let four = ChangedLabelUsage::<u8>::construct(0);
    let reading = read_changed_label_usage(&four);
    assert!(!reading.changed);
    assert_eq!(reading.label, "");
    assert_eq!(reading.type_id, tag);
    let five = LabelUsageChanged::<u8>::construct(0).with(Label("e")).with(Changed(true));
    let reading = read_label_usage_changed(&five);
    assert!(reading.changed);
    assert_eq!(reading.label, "e");
    assert_eq!(reading.type_id, tag);
    let six = LabelChangedUsage::<u8>::construct(0).with(Label("f"));
    let reading = read_label_changed_usage(&six);
    assert!(!reading.changed);
    assert_eq!(reading.label, "f");
    assert_eq!(reading.type_id, tag);
}
