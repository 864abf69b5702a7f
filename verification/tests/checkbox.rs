use ui_primitives::checkbox_label_class;
use ui_primitives::indicator_visible;
use ui_primitives::CheckboxState;
use ui_primitives::CheckedState;
use ui_primitives::CHECKBOX_LABEL_CLASS;

#[test]
fn toggle_transitions() {
    assert_eq!(CheckedState::Indeterminate.toggle(), CheckedState::Checked);
    assert_eq!(CheckedState::Checked.toggle(), CheckedState::Unchecked);
    assert_eq!(CheckedState::Unchecked.toggle(), CheckedState::Checked);
}

#[test]
fn toggle_never_reaches_indeterminate() {
    let mut s = CheckedState::Indeterminate;
    for _ in 0..7 {
        s = s.toggle();
        assert!(!s.is_indeterminate());
    }
}

#[test]
fn to_bool_only_for_checked() {
    assert!(CheckedState::Checked.to_bool());
    assert!(!CheckedState::Unchecked.to_bool());
    assert!(!CheckedState::Indeterminate.to_bool());
}

#[test]
fn data_state_attribute() {
    assert_eq!(CheckedState::Checked.data_state(), "checked");
    assert_eq!(CheckedState::Unchecked.data_state(), "unchecked");
    assert_eq!(CheckedState::Indeterminate.data_state(), "indeterminate");
}

#[test]
fn aria_checked_attribute() {
    assert_eq!(CheckedState::Checked.aria_checked(), "true");
    assert_eq!(CheckedState::Unchecked.aria_checked(), "false");
    assert_eq!(CheckedState::Indeterminate.aria_checked(), "mixed");
}

#[test]
fn uncontrolled_click_adopts_toggle() {
    let mut s = CheckboxState::new(
        None,
        CheckedState::Unchecked,
        false,
        false,
        None,
        None,
        None,
    );
    let c = s.on_trigger_click();
    assert!(c.applied);
    assert_eq!(c.next, CheckedState::Checked);
    assert_eq!(s.get_checked(), CheckedState::Checked);
    let c = s.on_trigger_click();
    assert_eq!(c.next, CheckedState::Unchecked);
    assert_eq!(s.get_checked(), CheckedState::Unchecked);
}

#[test]
fn controlled_click_only_reports() {
    let mut s = CheckboxState::new(
        Some(CheckedState::Indeterminate),
        CheckedState::Unchecked,
        false,
        false,
        None,
        None,
        None,
    );
    let c = s.on_trigger_click();
    assert!(!c.applied);
    assert_eq!(c.next, CheckedState::Checked);
    assert_eq!(s.get_checked(), CheckedState::Indeterminate);
    s.sync_checked(CheckedState::Checked);
    assert_eq!(s.get_checked(), CheckedState::Checked);
}

#[test]
fn indicator_rendered_while_marked() {
    assert!(indicator_visible(false, CheckedState::Checked));
    assert!(indicator_visible(false, CheckedState::Indeterminate));
    assert!(!indicator_visible(false, CheckedState::Unchecked));
    assert!(indicator_visible(true, CheckedState::Unchecked));
}

#[test]
fn label_class_composes() {
    assert_eq!(checkbox_label_class(None), CHECKBOX_LABEL_CLASS);
    assert_eq!(
        checkbox_label_class(Some("pl-2")),
        format!("{} pl-2", CHECKBOX_LABEL_CLASS)
    );
}

#[test]
fn form_mirror_attributes_pass_through() {
    let s = CheckboxState::new(
        None,
        CheckedState::Checked,
        true,
        true,
        Some("agree".to_string()),
        Some("signup".to_string()),
        Some("yes".to_string()),
    );
    assert!(s.is_disabled());
    assert!(s.is_required());
    assert_eq!(s.name().map(|n| n.as_str()), Some("agree"));
    assert_eq!(s.form().map(|f| f.as_str()), Some("signup"));
    assert_eq!(s.value(), "yes");
    assert!(s.get_checked().to_bool());
}
