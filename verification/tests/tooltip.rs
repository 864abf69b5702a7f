use ui_primitives::tooltip_content_class;
use ui_primitives::TimerPurpose;
use ui_primitives::TooltipMachine;
use ui_primitives::TooltipProviderConfig;
use ui_primitives::TooltipSide;
use ui_primitives::CLOSE_GRACE_PERIOD;
use ui_primitives::TOOLTIP_CONTENT_CLASS;

fn fresh() -> TooltipMachine {
    let provider = TooltipProviderConfig::new(None, None, false);
    TooltipMachine::new(&provider, false, None, None)
}

#[test]
fn provider_defaults() {
    let p = TooltipProviderConfig::new(None, None, false);
    assert_eq!(p.delay_duration, 400);
    assert_eq!(p.skip_delay_duration, 300);
    let q = TooltipProviderConfig::new(Some(100), Some(50), true);
    assert_eq!(q.delay_duration, 100);
    assert_eq!(q.skip_delay_duration, 50);
    assert!(q.disable_hoverable_content);
}

#[test]
fn enter_schedules_delayed_open() {
    let mut m = fresh();
    let cancel = m.on_trigger_enter(1, 1000);
    assert_eq!(cancel, None);
    let p = m.pending.expect("an open timer must be pending");
    assert_eq!(p.id, 1);
    assert_eq!(p.purpose, TimerPurpose::Open);
    assert_eq!(p.deadline, 1400);
    assert!(!m.is_open);
}

#[test]
fn rescheduling_cancels_prior_timer() {
    // only the second timer stays pending; the opened state arrives at the
    // second schedule plus the delay, and the first timer is dead
    let mut m = fresh();
    m.on_trigger_enter(1, 0);
    let cancel = m.on_trigger_enter(2, 100);
    assert_eq!(cancel, Some(1));
    let p = m.pending.expect("an open timer must be pending");
    assert_eq!(p.id, 2);
    assert_eq!(p.deadline, 500);
    // a late firing of a cancelled id changes nothing
    m.timer_fired(1);
    assert!(!m.is_open);
    // the live timer opens the tooltip as a delayed open
    m.timer_fired(2);
    assert!(m.is_open);
    assert!(m.was_open_delayed);
    assert_eq!(m.pending, None);
    assert_eq!(m.get_state_attribute(), "delayed-open");
}

#[test]
fn leave_while_open_schedules_grace_close() {
    let mut m = fresh();
    m.on_trigger_enter(1, 0);
    m.timer_fired(1);
    assert!(m.is_open);
    let cancel = m.on_trigger_leave(2, 1000);
    assert_eq!(cancel, None);
    let p = m.pending.expect("a close timer must be pending");
    assert_eq!(p.purpose, TimerPurpose::Close);
    assert_eq!(p.deadline, 1000 + CLOSE_GRACE_PERIOD);
    assert!(m.is_open);
    m.timer_fired(2);
    assert!(!m.is_open);
    assert_eq!(m.get_state_attribute(), "closed");
}

#[test]
fn content_enter_cancels_grace_close() {
    let mut m = fresh();
    m.on_trigger_enter(1, 0);
    m.timer_fired(1);
    m.on_trigger_leave(2, 100);
    let cancel = m.on_content_enter();
    assert_eq!(cancel, Some(2));
    assert_eq!(m.pending, None);
    assert!(m.is_open);
    let cancel = m.on_content_leave(3, 200);
    assert_eq!(cancel, None);
    let p = m.pending.expect("a close timer must be pending");
    assert_eq!(p.id, 3);
    assert_eq!(p.deadline, 200 + CLOSE_GRACE_PERIOD);
}

#[test]
fn focus_opens_instantly() {
    let mut m = fresh();
    let cancel = m.on_focus();
    assert_eq!(cancel, None);
    assert!(m.is_open);
    assert!(!m.was_open_delayed);
    assert_eq!(m.get_state_attribute(), "instant-open");
    m.on_blur();
    assert!(!m.is_open);
}

#[test]
fn focus_from_pointer_press_does_not_open() {
    let mut m = fresh();
    m.on_pointer_down();
    m.on_focus();
    assert!(!m.is_open);
    m.on_pointer_up();
    m.on_focus();
    assert!(m.is_open);
}

#[test]
fn pointer_down_closes_open_tooltip() {
    let mut m = fresh();
    m.on_focus();
    assert!(m.is_open);
    m.on_pointer_down();
    assert!(!m.is_open);
}

#[test]
fn escape_and_activation_close() {
    let mut m = fresh();
    m.on_focus();
    m.on_escape();
    assert!(!m.is_open);
    m.on_focus();
    m.on_activate();
    assert!(!m.is_open);
}

#[test]
fn escape_cancels_pending_open() {
    let mut m = fresh();
    m.on_trigger_enter(9, 0);
    let cancel = m.on_escape();
    assert_eq!(cancel, Some(9));
    m.timer_fired(9);
    assert!(!m.is_open);
}

#[test]
fn side_attributes_and_content_class() {
    assert_eq!(TooltipSide::Top.as_str(), "top");
    assert_eq!(TooltipSide::Left.as_str(), "left");
    assert_eq!(
        tooltip_content_class(TooltipSide::Bottom, None),
        format!(
            "{} top-full left-1/2 -translate-x-1/2 mt-2",
            TOOLTIP_CONTENT_CLASS
        )
    );
}

#[test]
fn leave_with_hover_disabled_closes_immediately() {
    let provider = TooltipProviderConfig::new(None, None, true);
    let mut m = TooltipMachine::new(&provider, false, None, None);
    m.on_focus();
    assert!(m.is_open);
    let cancel = m.on_trigger_leave(5, 100);
    assert_eq!(cancel, None);
    assert!(!m.is_open);
    assert_eq!(m.pending, None);
    assert_eq!(m.get_state_attribute(), "closed");
}

#[test]
fn leave_with_hover_disabled_cancels_pending_open() {
    let provider = TooltipProviderConfig::new(None, None, true);
    let mut m = TooltipMachine::new(&provider, false, None, None);
    m.on_trigger_enter(7, 0);
    let cancel = m.on_trigger_leave(8, 50);
    assert_eq!(cancel, Some(7));
    assert!(!m.is_open);
    assert_eq!(m.pending, None);
}
