//! Empty-state slot styling: the container and its header, media, title,
//! description and content sections.

use vstd::prelude::*;

use crate::text::cn_spec;
use crate::text::compose2;
use crate::text::compose3;
use crate::text::opt_view;

verus! {

pub const EMPTY_CLASS: &'static str =
    "flex min-w-0 flex-1 flex-col items-center justify-center gap-6 rounded-lg border-dashed p-6 text-center text-balance md:p-12";

pub const EMPTY_HEADER_CLASS: &'static str =
    "flex max-w-sm flex-col items-center gap-2 text-center";

pub const EMPTY_MEDIA_CLASS: &'static str =
    "flex shrink-0 items-center justify-center mb-2 [&_svg]:pointer-events-none [&_svg]:shrink-0";

pub const EMPTY_TITLE_CLASS: &'static str = "text-lg font-medium tracking-tight";

pub const EMPTY_DESCRIPTION_CLASS: &'static str =
    "text-muted-foreground [&>a:hover]:text-primary text-sm/relaxed [&>a]:underline [&>a]:underline-offset-4";

pub const EMPTY_CONTENT_CLASS: &'static str =
    "flex w-full max-w-sm min-w-0 flex-col items-center gap-4 text-sm text-balance";

#[derive(Clone, Copy, Debug, PartialEq, Eq, Structural)]
pub enum EmptyMediaVariant {
    Default,
    Icon,
}

impl EmptyMediaVariant {
    pub open spec fn spec_as_str(self) -> Seq<char> {
        match self {
            EmptyMediaVariant::Default => "default"@,
            EmptyMediaVariant::Icon => "icon"@,
        }
    }

    /// The `data-variant` attribute value.
    pub fn as_str(&self) -> (r: &'static str)
        ensures
            r@ == self.spec_as_str(),
    {
        match self {
            EmptyMediaVariant::Default => "default",
            EmptyMediaVariant::Icon => "icon",
        }
    }

    pub open spec fn spec_classes(self) -> Seq<char> {
        match self {
            EmptyMediaVariant::Default => "bg-transparent"@,
            EmptyMediaVariant::Icon => "bg-muted text-foreground flex size-10 shrink-0 items-center justify-center rounded-lg [&_svg:not([class*='size-'])]:size-6"@,
        }
    }

    /// The classes this media variant adds.
    pub fn classes(&self) -> (r: &'static str)
        ensures
            r@ == self.spec_classes(),
    {
        match self {
            EmptyMediaVariant::Default => "bg-transparent",
            EmptyMediaVariant::Icon => "bg-muted text-foreground flex size-10 shrink-0 items-center justify-center rounded-lg [&_svg:not([class*='size-'])]:size-6",
        }
    }
}

/// The class attribute of the empty-state container.
pub fn empty_class(class: Option<&str>) -> (r: String)
    ensures
        r@ == cn_spec(seq![Some(EMPTY_CLASS@), opt_view(class)]),
{
    compose2(EMPTY_CLASS, class)
}

/// The class attribute of the empty-state header.
pub fn empty_header_class(class: Option<&str>) -> (r: String)
    ensures
        r@ == cn_spec(seq![Some(EMPTY_HEADER_CLASS@), opt_view(class)]),
{
    compose2(EMPTY_HEADER_CLASS, class)
}

/// The class attribute of the empty-state media container: base, variant
/// classes, then the caller's extra classes.
pub fn empty_media_class(variant: EmptyMediaVariant, class: Option<&str>) -> (r: String)
    ensures
        r@ == cn_spec(
            seq![Some(EMPTY_MEDIA_CLASS@), Some(variant.spec_classes()), opt_view(class)],
        ),
{
    compose3(EMPTY_MEDIA_CLASS, variant.classes(), class)
}

/// The class attribute of the empty-state title.
pub fn empty_title_class(class: Option<&str>) -> (r: String)
    ensures
        r@ == cn_spec(seq![Some(EMPTY_TITLE_CLASS@), opt_view(class)]),
{
    compose2(EMPTY_TITLE_CLASS, class)
}

/// The class attribute of the empty-state description.
pub fn empty_description_class(class: Option<&str>) -> (r: String)
    ensures
        r@ == cn_spec(seq![Some(EMPTY_DESCRIPTION_CLASS@), opt_view(class)]),
{
    compose2(EMPTY_DESCRIPTION_CLASS, class)
}

/// The class attribute of the empty-state content area.
pub fn empty_content_class(class: Option<&str>) -> (r: String)
    ensures
        r@ == cn_spec(seq![Some(EMPTY_CONTENT_CLASS@), opt_view(class)]),
{
    compose2(EMPTY_CONTENT_CLASS, class)
}

} // verus!
