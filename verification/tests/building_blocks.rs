use widget_compose::context::{forward_listed, unpack_named, NamedSlot, Slots};
use widget_compose::error::ComposeError;
use widget_compose::node::{build, build_checked, Node, NodeKind};
use widget_compose::props::{remap, PropTag, PropValue, Props};

fn leaf(key: &str) -> Node {
    build(
        NodeKind::VerticalBox,
        key.to_string(),
        None,
        Props::new(),
        Vec::new(),
    )
}

fn named(name: &str, key: &str) -> NamedSlot {
    NamedSlot {
        name: name.to_string(),
        node: leaf(key),
    }
}

fn names(list: &[&str]) -> Vec<String> {
    list.iter().map(|n| n.to_string()).collect()
}

#[test]
fn props_with_is_read_back_by_get() {
    let props = Props::new().with(PropValue::VerticalLayout { separation: 9 });
    assert_eq!(
        props.get(PropTag::VerticalLayout),
        Some(PropValue::VerticalLayout { separation: 9 })
    );
    assert_eq!(props.get(PropTag::FlexItem), None);
    assert_eq!(props.get(PropTag::NavJump), None);
}

#[test]
fn props_later_facet_shadows_earlier_one_with_same_tag() {
    let props = Props::new()
        .with(PropValue::FlexItem { grow: 1, shrink: 1 })
        .with(PropValue::NavJumpLooped)
        .with(PropValue::FlexItem { grow: 0, shrink: 2 });
    assert_eq!(
        props.get(PropTag::FlexItem),
        Some(PropValue::FlexItem { grow: 0, shrink: 2 })
    );
    assert_eq!(props.get(PropTag::NavJump), Some(PropValue::NavJumpLooped));
}

#[test]
fn props_clone_reads_back_the_same_facets() {
    let props = Props::new().with(PropValue::FlexItem { grow: 3, shrink: 4 });
    let copy = props.clone();
    assert_eq!(copy.get(PropTag::FlexItem), props.get(PropTag::FlexItem));
    assert_eq!(copy.get(PropTag::NavJump), None);
}

#[test]
fn remap_applies_the_transform_without_touching_the_original() {
    let props = Props::new().with(PropValue::FlexItem { grow: 2, shrink: 2 });
    let kept = props.clone();
    let remapped = remap(props, |p: Props| p.with(PropValue::NavJumpLooped));
    assert_eq!(remapped.get(PropTag::NavJump), Some(PropValue::NavJumpLooped));
    assert_eq!(
        remapped.get(PropTag::FlexItem),
        Some(PropValue::FlexItem { grow: 2, shrink: 2 })
    );
    assert_eq!(kept.get(PropTag::NavJump), None);
}

#[test]
fn build_snapshots_all_its_arguments() {
    let children = vec![leaf("a"), leaf("b")];
    let node = build(
        NodeKind::GridBox,
        "g".to_string(),
        None,
        Props::new(),
        children,
    );
    assert_eq!(node.kind, NodeKind::GridBox);
    assert_eq!(node.key, "g");
    assert_eq!(node.children.len(), 2);
    assert_eq!(node.children[0].key, "a");
    assert_eq!(node.children[1].key, "b");
}

#[test]
fn build_checked_rejects_duplicate_sibling_keys_on_request() {
    let children = vec![leaf("a"), leaf("b"), leaf("a")];
    match build_checked(
        NodeKind::GridBox,
        "g".to_string(),
        None,
        Props::new(),
        children,
        true,
    ) {
        Err(ComposeError::DuplicateKey { key }) => assert_eq!(key, "a"),
        _ => panic!("expected a duplicate key error"),
    }
}

#[test]
fn build_checked_accepts_distinct_keys_and_skips_the_check_when_told() {
    let node = build_checked(
        NodeKind::GridBox,
        "g".to_string(),
        None,
        Props::new(),
        vec![leaf("a"), leaf("b")],
        true,
    )
    .unwrap();
    assert_eq!(node.children.len(), 2);

    let unchecked = build_checked(
        NodeKind::GridBox,
        "g".to_string(),
        None,
        Props::new(),
        vec![leaf("a"), leaf("a")],
        false,
    )
    .unwrap();
    assert_eq!(unchecked.children.len(), 2);
}

#[test]
fn duplicate_key_error_describes_itself() {
    let error = build_checked(
        NodeKind::GridBox,
        "g".to_string(),
        None,
        Props::new(),
        vec![leaf("dup"), leaf("dup")],
        true,
    )
    .unwrap_err();
    assert_eq!(error.describe(), "duplicate sibling key: dup");
}

#[test]
fn unpack_named_hands_children_back_in_request_order() {
    let slots = Slots::Named(vec![named("b", "2"), named("a", "1"), named("c", "3")]);
    let nodes = unpack_named(slots, &names(&["a", "b"])).unwrap();
    assert_eq!(nodes.len(), 2);
    assert_eq!(nodes[0].key, "1");
    assert_eq!(nodes[1].key, "2");
}

#[test]
fn unpack_named_reports_the_first_missing_name() {
    let slots = Slots::Named(vec![named("a", "1")]);
    match unpack_named(slots, &names(&["a", "b", "c"])) {
        Err(ComposeError::MissingSlot { name }) => assert_eq!(name, "b"),
        _ => panic!("expected a missing slot error"),
    }
}

#[test]
fn unpack_named_of_no_names_accepts_any_slot_set() {
    let nodes = unpack_named(Slots::Listed(vec![leaf("x")]), &names(&[])).unwrap();
    assert!(nodes.is_empty());
}

#[test]
fn forward_listed_preserves_order_end_to_end() {
    let slots = Slots::Listed(vec![leaf("x"), leaf("y"), leaf("z")]);
    let nodes = forward_listed(slots);
    let keys: Vec<String> = nodes.iter().map(|n| n.key.clone()).collect();
    assert_eq!(keys, vec!["x".to_string(), "y".to_string(), "z".to_string()]);
}

#[test]
fn forward_listed_of_named_slots_is_empty() {
    let slots = Slots::Named(vec![named("a", "1")]);
    assert!(forward_listed(slots).is_empty());
}
