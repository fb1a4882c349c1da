//! Tests for the pointer-button enumeration and the button set.

use winloop::PointerButton;
use winloop::PointerButtons;

fn all_real_buttons() -> Vec<PointerButton> {
    vec![
        PointerButton::Left,
        PointerButton::Right,
        PointerButton::Middle,
        PointerButton::X1,
        PointerButton::X2,
        PointerButton::Eraser,
    ]
}

#[test]
fn button_predicates_match_variants() {
    assert!(PointerButton::Left.is_left());
    assert!(PointerButton::Right.is_right());
    assert!(PointerButton::Middle.is_middle());
    assert!(PointerButton::X1.is_x1());
    assert!(PointerButton::X2.is_x2());
    assert!(PointerButton::Eraser.is_eraser());
    assert!(!PointerButton::NoButton.is_left());
    assert!(!PointerButton::Left.is_right());
    assert!(!PointerButton::Eraser.is_x2());
}

#[test]
fn with_then_contains_round_trip() {
    for b in all_real_buttons() {
        let s = PointerButtons::new();
        assert!(s.with(b).contains(b));
        assert!(!s.with(b).without(b).contains(b));
    }
}

#[test]
fn none_button_never_changes_emptiness() {
    let empty = PointerButtons::new();
    assert!(empty.with(PointerButton::NoButton).is_empty());
    assert!(empty.without(PointerButton::NoButton).is_empty());
    assert!(!empty.contains(PointerButton::NoButton));
    let full = empty.with(PointerButton::Left).with(PointerButton::Eraser);
    assert!(!full.with(PointerButton::NoButton).is_empty());
    assert!(!full.without(PointerButton::NoButton).is_empty());
    assert_eq!(full.with(PointerButton::NoButton), full);
    assert_eq!(full.without(PointerButton::NoButton), full);
}

#[test]
fn insert_and_remove_mutate_in_place() {
    let mut s = PointerButtons::new();
    s.insert(PointerButton::Middle);
    assert!(s.contains(PointerButton::Middle));
    assert!(s.has_middle());
    s.insert(PointerButton::X1);
    assert!(s.has_x1());
    s.remove(PointerButton::Middle);
    assert!(!s.has_middle());
    assert!(s.has_x1());
    s.remove(PointerButton::X1);
    assert!(s.is_empty());
}

#[test]
fn has_accessors_match_contains() {
    let s = PointerButtons::new()
        .with(PointerButton::Left)
        .with(PointerButton::Right)
        .with(PointerButton::X2);
    assert!(s.has_left());
    assert!(s.has_right());
    assert!(!s.has_middle());
    assert!(!s.has_x1());
    assert!(s.has_x2());
    assert!(!s.has_eraser());
}

#[test]
fn union_extend_and_superset() {
    let left = PointerButtons::new().with(PointerButton::Left);
    let right = PointerButtons::new().with(PointerButton::Right);
    let both = left.union(right);
    assert!(both.has_left() && both.has_right());
    assert!(both.is_superset(left));
    assert!(both.is_superset(right));
    assert!(!left.is_superset(both));
    let mut extended = left;
    extended.extend(right);
    assert_eq!(extended, both);
}

#[test]
fn count_and_clear() {
    let mut s = PointerButtons::new();
    assert_eq!(s.count(), 0);
    s.insert(PointerButton::Left);
    s.insert(PointerButton::Middle);
    s.insert(PointerButton::Eraser);
    assert_eq!(s.count(), 3);
    s.insert(PointerButton::Left);
    assert_eq!(s.count(), 3);
    s.insert(PointerButton::NoButton);
    assert_eq!(s.count(), 3);
    s.clear();
    assert_eq!(s.count(), 0);
    assert!(s.is_empty());
}

#[test]
fn default_set_is_empty() {
    let s: PointerButtons = Default::default();
    assert!(s.is_empty());
    assert_eq!(s, PointerButtons::new());
}

#[test]
fn count_follows_membership() {
    // The count is the number of contained buttons, never above six.
    let mut s = PointerButtons::new();
    let mut expected: u32 = 0;
    for b in all_real_buttons() {
        assert!(!s.contains(b));
        s.insert(b);
        expected += 1;
        assert_eq!(s.count(), expected);
        // Re-inserting a member leaves the count unchanged.
        s.insert(b);
        assert_eq!(s.count(), expected);
    }
    assert_eq!(s.count(), 6);
    s.insert(PointerButton::NoButton);
    assert_eq!(s.count(), 6);
}

#[test]
fn superset_iff_every_member_carries_over() {
    let small = PointerButtons::new()
        .with(PointerButton::Left)
        .with(PointerButton::X1);
    let large = small.with(PointerButton::Eraser);
    assert!(large.is_superset(small));
    assert!(!small.is_superset(large));
    assert!(small.is_superset(small));
    assert!(small.is_superset(PointerButtons::new()));
}
