use ui_primitives::dialog_slot_class;
use ui_primitives::focus_after_tab;
use ui_primitives::initial_focus;
use ui_primitives::trap_tab;
use ui_primitives::BodyStyle;
use ui_primitives::DialogIds;
use ui_primitives::DialogState;
use ui_primitives::ScrollLockManager;

fn ids() -> DialogIds {
    DialogIds::new(42, 7, 9)
}

#[test]
fn generated_ids_wire_aria_relations() {
    let ids = ids();
    assert_eq!(ids.content, "dialog-content-42");
    assert_eq!(ids.title, "dialog-title-7");
    assert_eq!(ids.description, "dialog-description-9");
}

#[test]
fn uncontrolled_dialog_toggles() {
    let mut d = DialogState::new(None, false, true, ids());
    assert!(!d.content_visible());
    let c = d.toggle();
    assert!(c.applied);
    assert!(c.next_open);
    assert!(d.content_visible());
    assert!(d.overlay_visible());
    let c = d.close();
    assert!(!c.next_open);
    assert!(!d.content_visible());
}

#[test]
fn controlled_dialog_only_requests() {
    let mut d = DialogState::new(Some(false), true, true, ids());
    let c = d.toggle();
    assert!(!c.applied);
    assert!(c.next_open);
    assert!(!d.content_visible());
    d.sync_open(true);
    assert!(d.content_visible());
}

#[test]
fn escape_closes_when_enabled() {
    let mut d = DialogState::new(None, true, true, ids());
    assert!(d.on_escape(false).is_none());
    assert!(d.content_visible());
    let c = d.on_escape(true).expect("escape must request a close");
    assert!(!c.next_open);
    assert!(!d.content_visible());
}

#[test]
fn backdrop_click_closes_when_enabled() {
    let mut d = DialogState::new(None, true, true, ids());
    assert!(d.on_backdrop_click(false).is_none());
    assert!(d.content_visible());
    assert!(d.on_backdrop_click(true).is_some());
    assert!(!d.content_visible());
}

#[test]
fn non_modal_dialog_has_no_overlay_and_no_effects() {
    let mut d = DialogState::new(None, true, false, ids());
    assert!(d.content_visible());
    assert!(!d.overlay_visible());
    assert!(!d.effects_active());
    d.close();
    assert!(!d.effects_active());
}

#[test]
fn slot_class_appends_caller_class() {
    assert_eq!(dialog_slot_class("dialog-overlay", ""), "dialog-overlay");
    assert_eq!(
        dialog_slot_class("dialog-content", "wide"),
        "dialog-content wide"
    );
}

#[test]
fn initial_focus_goes_to_first_descendant() {
    assert_eq!(initial_focus(0), None);
    assert_eq!(initial_focus(1), Some(0));
    assert_eq!(initial_focus(5), Some(0));
}

#[test]
fn tab_wraps_at_the_edges() {
    // Tab from the last focusable descendant moves to the first
    assert_eq!(trap_tab(2, 3, false), Some(0));
    // Shift+Tab from the first moves to the last
    assert_eq!(trap_tab(0, 3, true), Some(2));
    // anywhere else the browser default is left alone
    assert_eq!(trap_tab(1, 3, false), None);
    assert_eq!(trap_tab(1, 3, true), None);
    assert_eq!(trap_tab(2, 3, true), None);
    assert_eq!(trap_tab(0, 3, false), None);
}

#[test]
fn single_descendant_keeps_focus() {
    assert_eq!(trap_tab(0, 1, false), Some(0));
    assert_eq!(trap_tab(0, 1, true), Some(0));
}

#[test]
fn repeated_tab_cycles_through_descendants() {
    let mut at: usize = 0;
    let mut seen = vec![at];
    for _ in 0..3 {
        at = focus_after_tab(at, 3, false);
        seen.push(at);
    }
    assert_eq!(seen, vec![0, 1, 2, 0]);
    // and Shift+Tab walks the same cycle backwards
    assert_eq!(focus_after_tab(0, 3, true), 2);
    assert_eq!(focus_after_tab(2, 3, true), 1);
}

#[test]
fn scroll_lock_compensates_scrollbar() {
    let mut lock = ScrollLockManager::new();
    let next = lock.lock_body(
        BodyStyle {
            overflow: "auto".to_string(),
            padding_right_px: 4,
        },
        1000,
        983,
    );
    assert_eq!(next.overflow, "hidden");
    assert_eq!(next.padding_right_px, 17);
    let restored = lock.unlock_body().expect("a captured style must come back");
    assert_eq!(restored.overflow, "auto");
    assert_eq!(restored.padding_right_px, 4);
    assert!(lock.unlock_body().is_none());
}

#[test]
fn scroll_lock_without_scrollbar_keeps_padding() {
    let mut lock = ScrollLockManager::new();
    let next = lock.lock_body(
        BodyStyle {
            overflow: String::new(),
            padding_right_px: 8,
        },
        800,
        800,
    );
    assert_eq!(next.overflow, "hidden");
    assert_eq!(next.padding_right_px, 8);
}

#[test]
fn scroll_lock_transitions_only_on_entry_and_exit() {
    let mut lock = ScrollLockManager::new();
    let style = || BodyStyle {
        overflow: "scroll".to_string(),
        padding_right_px: 0,
    };
    let applied = lock.on_transition(true, style(), 900, 885);
    let applied = applied.expect("entering modal-open must lock");
    assert_eq!(applied.overflow, "hidden");
    assert_eq!(applied.padding_right_px, 15);
    // a repeated transition while open does not lock twice
    assert!(lock.on_transition(true, style(), 900, 885).is_none());
    let restored = lock.on_transition(false, style(), 900, 885);
    let restored = restored.expect("leaving modal-open must restore");
    assert_eq!(restored.overflow, "scroll");
    assert_eq!(restored.padding_right_px, 0);
    assert!(lock.on_transition(false, style(), 900, 885).is_none());
}

#[test]
fn id_getters_match_generated_ids() {
    let d = DialogState::new(None, false, true, ids());
    assert_eq!(d.get_content_id(), "dialog-content-42");
    assert_eq!(d.get_title_id(), "dialog-title-7");
    assert_eq!(d.get_description_id(), "dialog-description-9");
    assert!(d.is_modal());
}
