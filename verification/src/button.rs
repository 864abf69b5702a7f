//! Button styling and rendering decisions.

use vstd::prelude::*;

use crate::text::cn;
use crate::text::cn_spec;
use crate::text::opt_view;
use crate::text::str_eq;

verus! {

/// Classes shared by every button, before variant and size styling.
pub const BUTTON_BASE_CLASS: &'static str =
    "inline-flex items-center justify-center gap-2 whitespace-nowrap rounded-md text-sm font-medium transition-all disabled:pointer-events-none disabled:opacity-50 [&_svg]:pointer-events-none [&_svg:not([class*='size-'])]:size-4 shrink-0 [&_svg]:shrink-0 outline-none focus-visible:border-ring focus-visible:ring-ring/50 focus-visible:ring-[3px] aria-invalid:ring-destructive/20 dark:aria-invalid:ring-destructive/40 aria-invalid:border-destructive";

#[derive(Clone, Copy, Debug, PartialEq, Eq, Structural)]
pub enum ButtonVariant {
    Default,
    Destructive,
    Outline,
    Secondary,
    Phantom,
    Link,
}

impl ButtonVariant {
    pub open spec fn spec_as_str(self) -> Seq<char> {
        match self {
            ButtonVariant::Default => "bg-primary text-primary-foreground hover:bg-primary/90"@,
            ButtonVariant::Destructive => "bg-destructive text-white hover:bg-destructive/90 focus-visible:ring-destructive/20 dark:focus-visible:ring-destructive/40 dark:bg-destructive/60"@,
            ButtonVariant::Outline => "border bg-background shadow-xs hover:bg-accent hover:text-accent-foreground dark:bg-input/30 dark:border-input dark:hover:bg-input/50"@,
            ButtonVariant::Secondary => "bg-secondary text-secondary-foreground hover:bg-secondary/80"@,
            ButtonVariant::Phantom => "hover:bg-accent hover:text-accent-foreground dark:hover:bg-accent/50"@,
            ButtonVariant::Link => "text-primary underline-offset-4 hover:underline"@,
        }
    }

    /// The classes this variant adds.
    pub fn as_str(&self) -> (r: &'static str)
        ensures
            r@ == self.spec_as_str(),
    {
        match self {
            ButtonVariant::Default => "bg-primary text-primary-foreground hover:bg-primary/90",
            ButtonVariant::Destructive => "bg-destructive text-white hover:bg-destructive/90 focus-visible:ring-destructive/20 dark:focus-visible:ring-destructive/40 dark:bg-destructive/60",
            ButtonVariant::Outline => "border bg-background shadow-xs hover:bg-accent hover:text-accent-foreground dark:bg-input/30 dark:border-input dark:hover:bg-input/50",
            ButtonVariant::Secondary => "bg-secondary text-secondary-foreground hover:bg-secondary/80",
            ButtonVariant::Phantom => "hover:bg-accent hover:text-accent-foreground dark:hover:bg-accent/50",
            ButtonVariant::Link => "text-primary underline-offset-4 hover:underline",
        }
    }
}

#[derive(Clone, Copy, Debug, PartialEq, Eq, Structural)]
pub enum ButtonSize {
    Default,
    Sm,
    Lg,
    Icon,
    IconSm,
    IconLg,
}

impl ButtonSize {
    pub open spec fn spec_as_str(self) -> Seq<char> {
        match self {
            ButtonSize::Default => "h-9 px-4 py-2 has-[>svg]:px-3"@,
            ButtonSize::Sm => "h-8 rounded-md gap-1.5 px-3 has-[>svg]:px-2.5"@,
            ButtonSize::Lg => "h-10 rounded-md px-6 has-[>svg]:px-4"@,
            ButtonSize::Icon => "size-9"@,
            ButtonSize::IconSm => "size-8"@,
            ButtonSize::IconLg => "size-10"@,
        }
    }

    /// The classes this size adds.
    pub fn as_str(&self) -> (r: &'static str)
        ensures
            r@ == self.spec_as_str(),
    {
        match self {
            ButtonSize::Default => "h-9 px-4 py-2 has-[>svg]:px-3",
            ButtonSize::Sm => "h-8 rounded-md gap-1.5 px-3 has-[>svg]:px-2.5",
            ButtonSize::Lg => "h-10 rounded-md px-6 has-[>svg]:px-4",
            ButtonSize::Icon => "size-9",
            ButtonSize::IconSm => "size-8",
            ButtonSize::IconLg => "size-10",
        }
    }
}

/// The full class attribute of a button: base, variant and size classes,
/// then the caller's extra classes. Absent variant and size fall back to
/// their defaults.
pub fn button_class(
    variant: Option<ButtonVariant>,
    size: Option<ButtonSize>,
    class_name: Option<&str>,
) -> (r: String)
    ensures
        r@ == cn_spec(
            seq![
                Some(BUTTON_BASE_CLASS@),
                Some(variant.unwrap_or(ButtonVariant::Default).spec_as_str()),
                Some(size.unwrap_or(ButtonSize::Default).spec_as_str()),
                opt_view(class_name),
            ],
        ),
{
    let v = match variant {
        Option::Some(v) => v,
        Option::None => ButtonVariant::Default,
    };
    let s = match size {
        Option::Some(s) => s,
        Option::None => ButtonSize::Default,
    };
    let mut parts: Vec<Option<&str>> = Vec::new();
    parts.push(Some(BUTTON_BASE_CLASS));
    parts.push(Some(v.as_str()));
    parts.push(Some(s.as_str()));
    parts.push(class_name);
    let ghost pv = parts.deep_view();
    let r = cn(parts);
    proof {
        assert(pv =~= seq![
            Some(BUTTON_BASE_CLASS@),
            Some(variant.unwrap_or(ButtonVariant::Default).spec_as_str()),
            Some(size.unwrap_or(ButtonSize::Default).spec_as_str()),
            opt_view(class_name),
        ]);
    }
    r
}

/// The element a button renders as: a link, a plain container, or a real
/// button (the default for unknown tags).
#[derive(Clone, Copy, Debug, PartialEq, Eq, Structural)]
pub enum RenderTag {
    Anchor,
    Div,
    Span,
    Button,
}

/// Which element the `as` parameter selects; anything unknown renders as
/// a real button.
pub fn button_tag(as_: Option<&str>) -> (r: RenderTag)
    ensures
        match as_ {
            Option::Some(t) => {
                &&& t@ == "a"@ ==> r == RenderTag::Anchor
                &&& t@ == "div"@ ==> r == RenderTag::Div
                &&& t@ == "span"@ ==> r == RenderTag::Span
                &&& (t@ != "a"@ && t@ != "div"@ && t@ != "span"@) ==> r == RenderTag::Button
            },
            Option::None => r == RenderTag::Button,
        },
{
    proof {
        reveal_strlit("a");
        reveal_strlit("div");
        reveal_strlit("span");
        assert("a"@.len() == 1);
        assert("div"@.len() == 3);
        assert("span"@.len() == 4);
    }
    match as_ {
        Option::Some(t) => {
            if str_eq(t, "a") {
                RenderTag::Anchor
            } else if str_eq(t, "div") {
                RenderTag::Div
            } else if str_eq(t, "span") {
                RenderTag::Span
            } else {
                RenderTag::Button
            }
        },
        Option::None => RenderTag::Button,
    }
}

} // verus!
