//! Spinner styling.

use vstd::prelude::*;

use crate::text::cn;
use crate::text::cn_spec;
use crate::text::opt_view;

verus! {

#[derive(Clone, Copy, Debug, PartialEq, Eq, Structural)]
pub enum SpinnerSize {
    Small,
    Medium,
    Large,
    XLarge,
}

impl SpinnerSize {
    pub open spec fn spec_to_class(self) -> Seq<char> {
        match self {
            SpinnerSize::Small => "size-4"@,
            SpinnerSize::Medium => "size-6"@,
            SpinnerSize::Large => "size-8"@,
            SpinnerSize::XLarge => "size-12"@,
        }
    }

    /// The size class of the spinner icon.
    pub fn to_class(&self) -> (r: &'static str)
        ensures
            r@ == self.spec_to_class(),
    {
        match self {
            SpinnerSize::Small => "size-4",
            SpinnerSize::Medium => "size-6",
            SpinnerSize::Large => "size-8",
            SpinnerSize::XLarge => "size-12",
        }
    }
}

/// The full class attribute of a spinner: size, the spin animation, the
/// colour (defaulting to the current text colour), then the caller's
/// extra classes.
pub fn spinner_class(size: SpinnerSize, color: Option<&str>, class: Option<&str>) -> (r: String)
    ensures
        r@ == cn_spec(
            seq![
                Some(size.spec_to_class()),
                Some("animate-spin"@),
                Some(
                    match color {
                        Option::Some(c) => c@,
                        Option::None => "text-current"@,
                    },
                ),
                opt_view(class),
            ],
        ),
{
    let color_class = match color {
        Option::Some(c) => c,
        Option::None => "text-current",
    };
    let mut parts: Vec<Option<&str>> = Vec::new();
    parts.push(Some(size.to_class()));
    parts.push(Some("animate-spin"));
    parts.push(Some(color_class));
    parts.push(class);
    let ghost pv = parts.deep_view();
    let r = cn(parts);
    proof {
        assert(pv =~= seq![
            Some(size.spec_to_class()),
            Some("animate-spin"@),
            Some(
                match color {
                    Option::Some(c) => c@,
                    Option::None => "text-current"@,
                },
            ),
            opt_view(class),
        ]);
    }
    r
}

} // verus!
