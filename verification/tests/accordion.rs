use ui_primitives::accordion_content_style;
use ui_primitives::accordion_item_class;
use ui_primitives::AccordionChange;
use ui_primitives::AccordionOrientation;
use ui_primitives::AccordionState;
use ui_primitives::AccordionType;
use ui_primitives::MultiSelect;
use ui_primitives::SingleSelect;

#[test]
fn single_uncontrolled_toggle_opens_item() {
    let mut s = SingleSelect::new(None, None, true);
    assert!(!s.is_open("a"));
    let c = s.toggle("a");
    assert!(c.applied);
    assert_eq!(c.next, "a");
    assert!(s.is_open("a"));
    assert!(!s.is_open("b"));
}

#[test]
fn single_collapsible_double_toggle_closes() {
    // toggling a closed item twice opens and then collapses it
    let mut s = SingleSelect::new(None, None, true);
    s.toggle("a");
    let c = s.toggle("a");
    assert_eq!(c.next, "");
    assert!(!s.is_open("a"));
}

#[test]
fn single_odd_toggle_count_leaves_item_open() {
    let mut s = SingleSelect::new(None, None, true);
    for _ in 0..5 {
        s.toggle("a");
    }
    assert!(s.is_open("a"));
    for _ in 0..4 {
        s.toggle("a");
    }
    assert!(s.is_open("a"));
}

#[test]
fn single_non_collapsible_keeps_open_item() {
    let mut s = SingleSelect::new(None, Some("a".to_string()), false);
    assert!(s.is_open("a"));
    let c = s.toggle("a");
    assert_eq!(c.next, "a");
    assert!(s.is_open("a"));
    s.toggle("b");
    assert!(s.is_open("b"));
    assert!(!s.is_open("a"));
}

#[test]
fn single_controlled_toggle_only_requests() {
    let mut s = SingleSelect::new(Some("a".to_string()), None, true);
    let c = s.toggle("b");
    assert!(!c.applied);
    assert_eq!(c.next, "b");
    // the cell still holds the application-owned value
    assert!(s.is_open("a"));
}

#[test]
fn multi_toggle_parity() {
    // each key's final membership is the parity of its toggle count
    let mut m = MultiSelect::new(None, None);
    m.toggle("a");
    m.toggle("b");
    m.toggle("a");
    assert!(!m.is_open("a"));
    assert!(m.is_open("b"));
    m.toggle("a");
    assert!(m.is_open("a"));
}

#[test]
fn multi_defaults_are_deduplicated() {
    let m = MultiSelect::new(
        None,
        Some(vec!["a".to_string(), "b".to_string(), "a".to_string()]),
    );
    assert!(m.is_open("a"));
    assert!(m.is_open("b"));
    assert!(!m.is_open("c"));
}

#[test]
fn multi_controlled_toggle_only_requests() {
    let mut m = MultiSelect::new(Some(vec!["a".to_string()]), None);
    let c = m.toggle("b");
    assert!(!c.applied);
    assert_eq!(c.next, vec!["a".to_string(), "b".to_string()]);
    assert!(m.is_open("a"));
    assert!(!m.is_open("b"));
}

#[test]
fn accordion_state_single_mode() {
    let mut a = AccordionState::new(
        AccordionType::Single { collapsible: true },
        None,
        None,
        None,
        None,
        false,
        AccordionOrientation::Vertical,
    );
    match a.toggle("x") {
        AccordionChange::Single(c) => {
            assert!(c.applied);
            assert_eq!(c.next, "x");
        }
        AccordionChange::Multiple(_) => panic!("single accordion toggled as multiple"),
    }
    assert!(a.is_open("x"));
}

#[test]
fn accordion_state_multiple_mode() {
    let mut a = AccordionState::new(
        AccordionType::Multiple,
        None,
        None,
        None,
        None,
        false,
        AccordionOrientation::Horizontal,
    );
    a.toggle("x");
    a.toggle("y");
    assert!(a.is_open("x"));
    assert!(a.is_open("y"));
    a.toggle("x");
    assert!(!a.is_open("x"));
}

#[test]
fn disabled_accordion_swallows_activation() {
    let mut a = AccordionState::new(
        AccordionType::Single { collapsible: true },
        None,
        None,
        None,
        None,
        true,
        AccordionOrientation::Vertical,
    );
    assert!(a.trigger_activate("x", false).is_none());
    assert!(!a.is_open("x"));
    let mut b = AccordionState::new(
        AccordionType::Single { collapsible: true },
        None,
        None,
        None,
        None,
        false,
        AccordionOrientation::Vertical,
    );
    assert!(b.trigger_activate("x", true).is_none());
    assert!(b.trigger_activate("x", false).is_some());
    assert!(b.is_open("x"));
}

#[test]
fn orientation_attribute_values() {
    assert_eq!(AccordionOrientation::Vertical.as_str(), "vertical");
    assert_eq!(AccordionOrientation::Horizontal.as_str(), "horizontal");
}

#[test]
fn accordion_item_classes() {
    assert_eq!(accordion_item_class(None), "border-b");
    assert_eq!(accordion_item_class(Some("mt-2")), "border-b mt-2");
}

#[test]
fn accordion_content_styles() {
    assert_eq!(accordion_content_style(true), "max-height: 1000px; opacity: 1;");
    assert_eq!(accordion_content_style(false), "max-height: 0; opacity: 0;");
}
