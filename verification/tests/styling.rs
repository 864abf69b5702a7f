use ui_primitives::badge_class;
use ui_primitives::badge_tag;
use ui_primitives::button_class;
use ui_primitives::button_tag;
use ui_primitives::card_content_class;
use ui_primitives::card_title_class;
use ui_primitives::empty_media_class;
use ui_primitives::spinner_class;
use ui_primitives::BadgeVariant;
use ui_primitives::ButtonSize;
use ui_primitives::ButtonVariant;
use ui_primitives::EmptyMediaVariant;
use ui_primitives::RenderTag;
use ui_primitives::SpinnerSize;
use ui_primitives::StateCell;
use ui_primitives::BADGE_BASE_CLASS;
use ui_primitives::BUTTON_BASE_CLASS;
use ui_primitives::CARD_TITLE_CLASS;
use ui_primitives::EMPTY_MEDIA_CLASS;

#[test]
fn button_class_composes_base_variant_size() {
    assert_eq!(
        button_class(None, None, None),
        format!(
            "{} {} {}",
            BUTTON_BASE_CLASS,
            ButtonVariant::Default.as_str(),
            ButtonSize::Default.as_str()
        )
    );
    assert_eq!(
        button_class(Some(ButtonVariant::Link), Some(ButtonSize::Icon), Some(" m-1 ")),
        format!(
            "{} text-primary underline-offset-4 hover:underline size-9 m-1",
            BUTTON_BASE_CLASS
        )
    );
}

#[test]
fn button_tag_dispatch() {
    assert_eq!(button_tag(None), RenderTag::Button);
    assert_eq!(button_tag(Some("a")), RenderTag::Anchor);
    assert_eq!(button_tag(Some("div")), RenderTag::Div);
    assert_eq!(button_tag(Some("span")), RenderTag::Span);
    assert_eq!(button_tag(Some("section")), RenderTag::Button);
}

#[test]
fn badge_class_composes_base_and_variant() {
    assert_eq!(
        badge_class(BadgeVariant::Outline, Some("mx-1")),
        format!(
            "{} text-foreground [a&]:hover:bg-accent [a&]:hover:text-accent-foreground mx-1",
            BADGE_BASE_CLASS
        )
    );
}

#[test]
fn badge_tag_defaults_to_span() {
    assert_eq!(badge_tag("a"), RenderTag::Anchor);
    assert_eq!(badge_tag("button"), RenderTag::Button);
    assert_eq!(badge_tag("div"), RenderTag::Div);
    assert_eq!(badge_tag("span"), RenderTag::Span);
    assert_eq!(badge_tag("p"), RenderTag::Span);
}

#[test]
fn spinner_class_exact_value() {
    assert_eq!(
        spinner_class(SpinnerSize::Small, None, None),
        "size-4 animate-spin text-current"
    );
    assert_eq!(
        spinner_class(SpinnerSize::Large, Some("text-primary"), Some("m-2")),
        "size-8 animate-spin text-primary m-2"
    );
}

#[test]
fn card_slot_classes() {
    assert_eq!(card_title_class(None), CARD_TITLE_CLASS);
    assert_eq!(card_content_class(Some("pt-0")), "px-6 pt-0");
}

#[test]
fn empty_media_variant_classes() {
    assert_eq!(EmptyMediaVariant::Default.as_str(), "default");
    assert_eq!(EmptyMediaVariant::Icon.as_str(), "icon");
    assert_eq!(
        empty_media_class(EmptyMediaVariant::Default, None),
        format!("{} bg-transparent", EMPTY_MEDIA_CLASS)
    );
}

#[test]
fn state_cell_ownership() {
    let mut internal: StateCell<u32> = StateCell::new(None, 5);
    assert_eq!(*internal.get(), 5);
    assert!(internal.request(9));
    assert_eq!(*internal.get(), 9);

    let mut external: StateCell<u32> = StateCell::new(Some(3), 5);
    assert_eq!(*external.get(), 3);
    assert!(!external.request(9));
    assert_eq!(*external.get(), 3);
    external.sync(9);
    assert_eq!(*external.get(), 9);
}
