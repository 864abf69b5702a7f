use ui_primitives::avatar_fallback_class;
use ui_primitives::fallback_visible;
use ui_primitives::image_step;
use ui_primitives::image_visible;
use ui_primitives::ImageLoadingStatus;
use ui_primitives::ImageSignal;
use ui_primitives::portal_element_id;
use ui_primitives::PortalMount;
use ui_primitives::AVATAR_FALLBACK_CLASS;

#[test]
fn successful_load_shows_image_only() {
    let mut s = ImageLoadingStatus::Idle;
    assert!(fallback_visible(s));
    s = image_step(s, ImageSignal::Mounted);
    assert_eq!(s, ImageLoadingStatus::Loading);
    s = image_step(s, ImageSignal::LoadSucceeded);
    assert_eq!(s, ImageLoadingStatus::Loaded);
    assert!(image_visible(s));
    assert!(!fallback_visible(s));
}

#[test]
fn failed_load_shows_fallback_only() {
    let mut s = ImageLoadingStatus::Idle;
    s = image_step(s, ImageSignal::Mounted);
    s = image_step(s, ImageSignal::LoadFailed);
    assert_eq!(s, ImageLoadingStatus::Error);
    assert!(!image_visible(s));
    assert!(fallback_visible(s));
}

#[test]
fn error_state_is_final() {
    let mut s = ImageLoadingStatus::Error;
    for signal in [
        ImageSignal::Mounted,
        ImageSignal::LoadSucceeded,
        ImageSignal::LoadFailed,
    ] {
        s = image_step(s, signal);
        assert_eq!(s, ImageLoadingStatus::Error);
    }
}

#[test]
fn signals_out_of_order_are_ignored() {
    assert_eq!(
        image_step(ImageLoadingStatus::Idle, ImageSignal::LoadSucceeded),
        ImageLoadingStatus::Idle
    );
    assert_eq!(
        image_step(ImageLoadingStatus::Loaded, ImageSignal::Mounted),
        ImageLoadingStatus::Loaded
    );
}

#[test]
fn avatar_fallback_class_composes() {
    assert_eq!(avatar_fallback_class(None), AVATAR_FALLBACK_CLASS);
    assert_eq!(
        avatar_fallback_class(Some("text-xs")),
        format!("{} text-xs", AVATAR_FALLBACK_CLASS)
    );
}

#[test]
fn portal_relocates_to_existing_target() {
    // the subtree ends up under the found container, not its original parent
    let mut p = PortalMount::new(10);
    assert_eq!(p.current_parent, Some(10));
    let moved = p.relocate(Some(1));
    assert!(moved);
    assert_eq!(p.current_parent, Some(1));
    assert_eq!(p.original_parent, 10);
}

#[test]
fn portal_missing_target_is_a_silent_no_op() {
    let mut p = PortalMount::new(10);
    let moved = p.relocate(None);
    assert!(!moved);
    assert_eq!(p.current_parent, Some(10));
}

#[test]
fn portal_relocates_once_per_mount() {
    let mut p = PortalMount::new(10);
    p.relocate(Some(1));
    let moved = p.relocate(Some(2));
    assert!(!moved);
    assert_eq!(p.current_parent, Some(1));
}

#[test]
fn unmount_removes_subtree_wherever_it_sits() {
    let mut p = PortalMount::new(10);
    p.relocate(Some(1));
    p.unmount();
    assert_eq!(p.current_parent, None);
    let mut q = PortalMount::new(10);
    q.unmount();
    assert_eq!(q.current_parent, None);
}

#[test]
fn portal_ids_are_seed_derived() {
    assert_eq!(portal_element_id(123), "portal-123");
    assert_eq!(portal_element_id(0), "portal-0");
}
