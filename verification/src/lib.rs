//! Verified interaction logic for a set of accessible UI primitives.
//!
//! Each stateful primitive (accordion, checkbox, dialog, tooltip, avatar,
//! portal) is modelled as a plain state machine: events come in as values,
//! transitions are total functions with contracts, and the side effects a
//! host must perform (schedule or cancel a timer, move focus, relocate a
//! node) are returned as data. A thin host layer wires these machines to a
//! real renderer and DOM; everything that decides is here and verified.

pub mod accordion;
pub mod avatar;
pub mod badge;
pub mod button;
pub mod card;
pub mod checkbox;
pub mod control;
pub mod dialog;
pub mod empty;
pub mod portal;
pub mod spinner;
pub mod text;
pub mod tooltip;

pub use accordion::ACCORDION_CONTENT_CLASS;
pub use accordion::accordion_content_class;
pub use accordion::accordion_content_style;
pub use accordion::ACCORDION_ITEM_CLASS;
pub use accordion::accordion_item_class;
pub use accordion::accordion_trigger_class;
pub use accordion::ACCORDION_TRIGGER_CLASS;
pub use accordion::AccordionChange;
pub use accordion::AccordionOrientation;
pub use accordion::AccordionState;
pub use accordion::AccordionType;
pub use accordion::lemma_dedup_keys;
pub use accordion::lemma_multi_next_membership;
pub use accordion::lemma_multi_toggle_parity;
pub use accordion::lemma_single_collapsible_toggle_parity;
pub use accordion::MultiChange;
pub use accordion::MultiSelect;
pub use accordion::SingleChange;
pub use accordion::SingleSelect;
pub use avatar::AVATAR_CLASS;
pub use avatar::avatar_class;
pub use avatar::avatar_fallback_class;
pub use avatar::AVATAR_FALLBACK_CLASS;
pub use avatar::avatar_image_class;
pub use avatar::AVATAR_IMAGE_CLASS;
pub use avatar::fallback_visible;
pub use avatar::image_step;
pub use avatar::image_visible;
pub use avatar::ImageLoadingStatus;
pub use avatar::ImageSignal;
pub use avatar::lemma_avatar_settles;
pub use badge::BADGE_BASE_CLASS;
pub use badge::badge_class;
pub use badge::badge_tag;
pub use badge::BadgeVariant;
pub use button::BUTTON_BASE_CLASS;
pub use button::button_class;
pub use button::button_tag;
pub use button::ButtonSize;
pub use button::ButtonVariant;
pub use button::RenderTag;
pub use card::CARD_ACTION_CLASS;
pub use card::card_action_class;
pub use card::card_class;
pub use card::CARD_CLASS;
pub use card::CARD_CONTENT_CLASS;
pub use card::card_content_class;
pub use card::card_description_class;
pub use card::CARD_DESCRIPTION_CLASS;
pub use card::card_footer_class;
pub use card::CARD_FOOTER_CLASS;
pub use card::CARD_HEADER_CLASS;
pub use card::card_header_class;
pub use card::card_title_class;
pub use card::CARD_TITLE_CLASS;
pub use checkbox::CHECKBOX_INDICATOR_CLASS;
pub use checkbox::checkbox_indicator_class;
pub use checkbox::checkbox_label_class;
pub use checkbox::CHECKBOX_LABEL_CLASS;
pub use checkbox::checkbox_trigger_class;
pub use checkbox::CHECKBOX_TRIGGER_CLASS;
pub use checkbox::CheckboxChange;
pub use checkbox::CheckboxState;
pub use checkbox::CheckedState;
pub use checkbox::indicator_visible;
pub use checkbox::lemma_toggle_never_indeterminate;
pub use control::ControlSource;
pub use control::StateCell;
pub use dialog::BodyStyle;
pub use dialog::dialog_slot_class;
pub use dialog::DialogChange;
pub use dialog::DialogIds;
pub use dialog::DialogState;
pub use dialog::focus_after_tab;
pub use dialog::initial_focus;
pub use dialog::lemma_focus_trap_cycles;
pub use dialog::ScrollLockManager;
pub use dialog::spec_focus_after_tab;
pub use dialog::trap_tab;
pub use empty::EMPTY_CLASS;
pub use empty::empty_class;
pub use empty::EMPTY_CONTENT_CLASS;
pub use empty::empty_content_class;
pub use empty::empty_description_class;
pub use empty::EMPTY_DESCRIPTION_CLASS;
pub use empty::EMPTY_HEADER_CLASS;
pub use empty::empty_header_class;
pub use empty::empty_media_class;
pub use empty::EMPTY_MEDIA_CLASS;
pub use empty::EMPTY_TITLE_CLASS;
pub use empty::empty_title_class;
pub use empty::EmptyMediaVariant;
pub use portal::lemma_portal_placement;
pub use portal::portal_element_id;
pub use portal::PortalMount;
pub use spinner::spinner_class;
pub use spinner::SpinnerSize;
pub use text::bool_attr;
pub use text::cn;
pub use text::data_state_open;
pub use text::key_is_enter;
pub use text::key_is_escape;
pub use text::key_is_tab;
pub use text::str_eq;
pub use text::trim_str;
pub use text::u64_to_dec;
pub use tooltip::CLOSE_GRACE_PERIOD;
pub use tooltip::DEFAULT_DELAY_DURATION;
pub use tooltip::lemma_tooltip_reschedule_supersedes;
pub use tooltip::PendingTimer;
pub use tooltip::SKIP_DELAY_DURATION;
pub use tooltip::TimerPurpose;
pub use tooltip::tooltip_arrow_class;
pub use tooltip::tooltip_content_class;
pub use tooltip::TOOLTIP_CONTENT_CLASS;
pub use tooltip::tooltip_trigger_class;
pub use tooltip::TooltipMachine;
pub use tooltip::TooltipProviderConfig;
pub use tooltip::TooltipSide;
