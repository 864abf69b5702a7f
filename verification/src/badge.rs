//! Badge styling and rendering decisions.

use vstd::prelude::*;

use crate::button::RenderTag;
use crate::text::cn_spec;
use crate::text::compose3;
use crate::text::opt_view;
use crate::text::str_eq;

verus! {

/// Classes shared by every badge, before variant styling.
pub const BADGE_BASE_CLASS: &'static str =
    "inline-flex items-center justify-center rounded-full border px-2 py-0.5 text-xs font-medium w-fit whitespace-nowrap shrink-0 [&>svg]:size-3 gap-1 [&>svg]:pointer-events-none focus-visible:border-ring focus-visible:ring-ring/50 focus-visible:ring-[3px] aria-invalid:ring-destructive/20 dark:aria-invalid:ring-destructive/40 aria-invalid:border-destructive transition-[color,box-shadow] overflow-hidden";

#[derive(Clone, Copy, Debug, PartialEq, Eq, Structural)]
pub enum BadgeVariant {
    Default,
    Secondary,
    Destructive,
    Outline,
}

impl BadgeVariant {
    pub open spec fn spec_as_str(self) -> Seq<char> {
        match self {
            BadgeVariant::Default => "border-transparent bg-primary text-primary-foreground [a&]:hover:bg-primary/90"@,
            BadgeVariant::Secondary => "border-transparent bg-secondary text-secondary-foreground [a&]:hover:bg-secondary/90"@,
            BadgeVariant::Destructive => "border-transparent bg-destructive text-white [a&]:hover:bg-destructive/90 focus-visible:ring-destructive/20 dark:focus-visible:ring-destructive/40 dark:bg-destructive/60"@,
            BadgeVariant::Outline => "text-foreground [a&]:hover:bg-accent [a&]:hover:text-accent-foreground"@,
        }
    }

    /// The classes this variant adds.
    pub fn as_str(&self) -> (r: &'static str)
        ensures
            r@ == self.spec_as_str(),
    {
        match self {
            BadgeVariant::Default => "border-transparent bg-primary text-primary-foreground [a&]:hover:bg-primary/90",
            BadgeVariant::Secondary => "border-transparent bg-secondary text-secondary-foreground [a&]:hover:bg-secondary/90",
            BadgeVariant::Destructive => "border-transparent bg-destructive text-white [a&]:hover:bg-destructive/90 focus-visible:ring-destructive/20 dark:focus-visible:ring-destructive/40 dark:bg-destructive/60",
            BadgeVariant::Outline => "text-foreground [a&]:hover:bg-accent [a&]:hover:text-accent-foreground",
        }
    }
}

/// The full class attribute of a badge: base and variant classes, then
/// the caller's extra classes.
pub fn badge_class(variant: BadgeVariant, class: Option<&str>) -> (r: String)
    ensures
        r@ == cn_spec(seq![Some(BADGE_BASE_CLASS@), Some(variant.spec_as_str()), opt_view(class)]),
{
    compose3(BADGE_BASE_CLASS, variant.as_str(), class)
}

/// Which element the `as` parameter selects; a badge defaults to a span,
/// and an unknown tag also renders as a span.
pub fn badge_tag(as_: &str) -> (r: RenderTag)
    ensures
        as_@ == "a"@ ==> r == RenderTag::Anchor,
        as_@ == "button"@ ==> r == RenderTag::Button,
        as_@ == "div"@ ==> r == RenderTag::Div,
        (as_@ != "a"@ && as_@ != "button"@ && as_@ != "div"@) ==> r == RenderTag::Span,
{
    proof {
        reveal_strlit("a");
        reveal_strlit("button");
        reveal_strlit("div");
        assert("a"@.len() == 1);
        assert("button"@.len() == 6);
        assert("div"@.len() == 3);
    }
    if str_eq(as_, "a") {
        RenderTag::Anchor
    } else if str_eq(as_, "button") {
        RenderTag::Button
    } else if str_eq(as_, "div") {
        RenderTag::Div
    } else {
        RenderTag::Span
    }
}

} // verus!
