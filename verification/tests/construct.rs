use decorator_stack::permutations::{
    ChangedLabelUsage, ChangedUsageLabel, LabelChangedUsage, LabelUsageChanged, UsageChangedLabel,
    UsageLabelChanged,
};
use decorator_stack::{
    ChangedFlagTrait, ChangedWrap, Construct, Label, LabelTrait, LabelWrap, Usage, UsageTag,
    UsageTrait, With, S, Z,
};
use std::any::TypeId;

#[test]
fn construct_one_layer_is_new() {
    let changed = <ChangedWrap<u8> as Construct<u8, Z>>::construct(9);
    assert_eq!(changed.data, 9);
    assert!(!changed.changed);
    let label = <LabelWrap<u8> as Construct<u8, Z>>::construct(9);
    assert_eq!(label.data, 9);
    assert_eq!(label.label, "");
    let usage = <Usage<UsageTag, u8> as Construct<u8, Z>>::construct(9);
    assert_eq!(usage.data, 9);
}

#[test]
fn construct_usage_changed_label_matches_nested_new() {
    let built = UsageChangedLabel::<u8>::construct(1);
    let nested = Usage::<UsageTag, _>::new(ChangedWrap::new(LabelWrap::new(1u8)));
    assert_eq!(built.get_changed(), nested.get_changed());
    assert_eq!(built.get_label(), nested.get_label());
    assert_eq!(built.type_id(), nested.type_id());
    assert_eq!(***built, ***nested);
    assert!(!built.get_changed());
    assert_eq!(built.get_label(), "");
    assert_eq!(***built, 1);
}

#[test]
fn construct_usage_label_changed_matches_nested_new() {
    let built = UsageLabelChanged::<u16>::construct(2);
    let nested = Usage::<UsageTag, _>::new(LabelWrap::new(ChangedWrap::new(2u16)));
    assert_eq!(built.get_changed(), nested.get_changed());
    assert_eq!(built.get_label(), nested.get_label());
    assert_eq!(built.type_id(), nested.type_id());
    assert_eq!(***built, ***nested);
    assert!(!built.get_changed());
    assert_eq!(built.get_label(), "");
    assert_eq!(***built, 2);
}

#[test]
fn construct_changed_usage_label_matches_nested_new() {
    let built = ChangedUsageLabel::<u32>::construct(3);
    let nested = ChangedWrap::new(Usage::<UsageTag, _>::new(LabelWrap::new(3u32)));
    assert_eq!(built.get_changed(), nested.get_changed());
    assert_eq!(built.get_label(), nested.get_label());
    assert_eq!(built.type_id(), nested.type_id());
    assert_eq!(***built, ***nested);
    assert!(!built.get_changed());
    assert_eq!(built.get_label(), "");
    assert_eq!(***built, 3);
}

#[test]
fn construct_changed_label_usage_matches_nested_new() {
    let built = ChangedLabelUsage::<u64>::construct(4);
    let nested = ChangedWrap::new(LabelWrap::new(Usage::<UsageTag, _>::new(4u64)));
    assert_eq!(built.get_changed(), nested.get_changed());
    assert_eq!(built.get_label(), nested.get_label());
    assert_eq!(built.type_id(), nested.type_id());
    assert_eq!(***built, ***nested);
    assert!(!built.get_changed());
    assert_eq!(built.get_label(), "");
    assert_eq!(***built, 4);
}

#[test]
fn construct_label_usage_changed_matches_nested_new() {
    let built = LabelUsageChanged::<u128>::construct(5);
    let nested = LabelWrap::new(Usage::<UsageTag, _>::new(ChangedWrap::new(5u128)));
    assert_eq!(built.get_changed(), nested.get_changed());
    assert_eq!(built.get_label(), nested.get_label());
    assert_eq!(built.type_id(), nested.type_id());
    assert_eq!(***built, ***nested);
    assert!(!built.get_changed());
    assert_eq!(built.get_label(), "");
    assert_eq!(***built, 5);
}

#[test]
fn construct_label_changed_usage_matches_nested_new() {
    let built = LabelChangedUsage::<usize>::construct(6);
    let nested = LabelWrap::new(ChangedWrap::new(Usage::<UsageTag, _>::new(6usize)));
    assert_eq!(built.get_changed(), nested.get_changed());
    assert_eq!(built.get_label(), nested.get_label());
    assert_eq!(built.type_id(), nested.type_id());
    assert_eq!(***built, ***nested);
    assert!(!built.get_changed());
    assert_eq!(built.get_label(), "");
    assert_eq!(***built, 6);
    assert_eq!(built.type_id(), TypeId::of::<UsageTag>());
}

#[test]
fn construct_keeps_a_payload_that_is_not_copy() {
    let built = LabelChangedUsage::<String>::construct(String::from("payload"));
    assert_eq!(***built, "payload");
    assert_eq!(built.data.data.data, "payload");
}

#[test]
fn construct_around_a_payload_that_is_itself_a_layer() {
    let inner = LabelWrap::new(21u8).with(Label("kept"));
    let built = <ChangedWrap<LabelWrap<u8>> as Construct<LabelWrap<u8>, Z>>::construct(inner);
    assert!(!built.get_changed());
    assert_eq!(built.get_label(), "kept");
    assert_eq!(**built, 21);
}

#[test]
fn construct_two_layers_of_one_kind() {
    let built = <ChangedWrap<ChangedWrap<u8>> as Construct<u8, S<Z>>>::construct(3);
    assert!(!built.changed);
    assert!(!built.data.changed);
    assert_eq!(built.data.data, 3);
}
