//! Card slot styling: the container and its header, title, description,
//! action, content and footer sections.

use vstd::prelude::*;

use crate::text::cn_spec;
use crate::text::compose2;
use crate::text::opt_view;

verus! {

pub const CARD_CLASS: &'static str =
    "bg-card text-card-foreground flex flex-col gap-6 rounded-xl border py-6 shadow-sm";

pub const CARD_HEADER_CLASS: &'static str =
    "grid auto-rows-min grid-rows-[auto_auto] items-start gap-2 px-6 has-[data-slot=card-action]:grid-cols-[1fr_auto] [&.border-b]:pb-6";

pub const CARD_TITLE_CLASS: &'static str = "leading-none font-semibold";

pub const CARD_DESCRIPTION_CLASS: &'static str = "text-muted-foreground text-sm";

pub const CARD_ACTION_CLASS: &'static str =
    "col-start-2 row-span-2 row-start-1 self-start justify-self-end";

pub const CARD_CONTENT_CLASS: &'static str = "px-6";

pub const CARD_FOOTER_CLASS: &'static str = "flex items-center px-6 [&.border-t]:pt-6";

/// The class attribute of the card container.
pub fn card_class(class: Option<&str>) -> (r: String)
    ensures
        r@ == cn_spec(seq![Some(CARD_CLASS@), opt_view(class)]),
{
    compose2(CARD_CLASS, class)
}

/// The class attribute of the card header.
pub fn card_header_class(class: Option<&str>) -> (r: String)
    ensures
        r@ == cn_spec(seq![Some(CARD_HEADER_CLASS@), opt_view(class)]),
{
    compose2(CARD_HEADER_CLASS, class)
}

/// The class attribute of the card title.
pub fn card_title_class(class: Option<&str>) -> (r: String)
    ensures
        r@ == cn_spec(seq![Some(CARD_TITLE_CLASS@), opt_view(class)]),
{
    compose2(CARD_TITLE_CLASS, class)
}

/// The class attribute of the card description.
pub fn card_description_class(class: Option<&str>) -> (r: String)
    ensures
        r@ == cn_spec(seq![Some(CARD_DESCRIPTION_CLASS@), opt_view(class)]),
{
    compose2(CARD_DESCRIPTION_CLASS, class)
}

/// The class attribute of the card action area.
pub fn card_action_class(class: Option<&str>) -> (r: String)
    ensures
        r@ == cn_spec(seq![Some(CARD_ACTION_CLASS@), opt_view(class)]),
{
    compose2(CARD_ACTION_CLASS, class)
}

/// The class attribute of the card content area.
pub fn card_content_class(class: Option<&str>) -> (r: String)
    ensures
        r@ == cn_spec(seq![Some(CARD_CONTENT_CLASS@), opt_view(class)]),
{
    compose2(CARD_CONTENT_CLASS, class)
}

/// The class attribute of the card footer.
pub fn card_footer_class(class: Option<&str>) -> (r: String)
    ensures
        r@ == cn_spec(seq![Some(CARD_FOOTER_CLASS@), opt_view(class)]),
{
    compose2(CARD_FOOTER_CLASS, class)
}

} // verus!
