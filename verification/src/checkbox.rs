//! Tri-state checkbox logic.
//!
//! A checkbox is either checked, unchecked, or indeterminate ("mixed" in
//! ARIA terms). Toggling never produces the indeterminate state: it is only
//! reachable through an external or default assignment.

use vstd::prelude::*;

use crate::control::StateCell;
use crate::text::cn_spec;
use crate::text::compose2;
use crate::text::opt_view;

verus! {

#[derive(Clone, Copy, Debug, PartialEq, Eq, Structural)]
pub enum CheckedState {
    Checked,
    Unchecked,
    Indeterminate,
}

impl CheckedState {
    /// The state a toggle moves to: indeterminate and unchecked both
    /// activate the checkbox, checked deactivates it.
    pub open spec fn spec_toggle(self) -> CheckedState {
        match self {
            CheckedState::Indeterminate => CheckedState::Checked,
            CheckedState::Checked => CheckedState::Unchecked,
            CheckedState::Unchecked => CheckedState::Checked,
        }
    }

    pub fn to_bool(&self) -> (r: bool)
        ensures
            r == (*self == CheckedState::Checked),
    {
        matches!(self, CheckedState::Checked)
    }

    pub fn toggle(&self) -> (r: Self)
        ensures
            r == self.spec_toggle(),
            r != CheckedState::Indeterminate,
    {
        match self {
            CheckedState::Indeterminate => CheckedState::Checked,
            CheckedState::Checked => CheckedState::Unchecked,
            CheckedState::Unchecked => CheckedState::Checked,
        }
    }

    pub fn is_indeterminate(&self) -> (r: bool)
        ensures
            r == (*self == CheckedState::Indeterminate),
    {
        matches!(self, CheckedState::Indeterminate)
    }
}

impl CheckedState {
    /// The `data-state` attribute value.
    pub open spec fn spec_data_state(self) -> Seq<char> {
        match self {
            CheckedState::Checked => "checked"@,
            CheckedState::Unchecked => "unchecked"@,
            CheckedState::Indeterminate => "indeterminate"@,
        }
    }

    pub fn data_state(&self) -> (r: &'static str)
        ensures
            r@ == self.spec_data_state(),
    {
        match self {
            CheckedState::Checked => "checked",
            CheckedState::Unchecked => "unchecked",
            CheckedState::Indeterminate => "indeterminate",
        }
    }

    /// The `aria-checked` attribute value: the indeterminate state is
    /// "mixed", the others are the plain booleans.
    pub open spec fn spec_aria_checked(self) -> Seq<char> {
        match self {
            CheckedState::Checked => "true"@,
            CheckedState::Unchecked => "false"@,
            CheckedState::Indeterminate => "mixed"@,
        }
    }

    pub fn aria_checked(&self) -> (r: &'static str)
        ensures
            r@ == self.spec_aria_checked(),
    {
        match self {
            CheckedState::Checked => "true",
            CheckedState::Unchecked => "false",
            CheckedState::Indeterminate => "mixed",
        }
    }
}

/// The outcome of a checkbox click: the state the checkbox asks to adopt
/// (and reports to the change callback), and whether the cell adopted it
/// itself (uncontrolled mode).
#[derive(Clone, Copy, Debug, PartialEq, Eq, Structural)]
pub struct CheckboxChange {
    pub applied: bool,
    pub next: CheckedState,
}

/// Shared checkbox state, as provided to the trigger, indicator and
/// form-mirror input.
pub struct CheckboxState {
    cell: StateCell<CheckedState>,
    disabled: bool,
    required: bool,
    name: Option<String>,
    form: Option<String>,
    value: String,
}

impl CheckboxState {
    pub closed spec fn is_internal(self) -> bool {
        self.cell.is_internal()
    }

    pub closed spec fn checked(self) -> CheckedState {
        self.cell.value()
    }

    pub closed spec fn disabled(self) -> bool {
        self.disabled
    }

    pub closed spec fn required(self) -> bool {
        self.required
    }

    pub closed spec fn name_view(self) -> Option<Seq<char>> {
        match self.name {
            Some(n) => Some(n@),
            None => None,
        }
    }

    pub closed spec fn form_view(self) -> Option<Seq<char>> {
        match self.form {
            Some(f) => Some(f@),
            None => None,
        }
    }

    pub closed spec fn value_view(self) -> Seq<char> {
        self.value@
    }

    /// A controlled cell around `checked`, or an uncontrolled cell around
    /// `default_checked`. The submission value defaults to "on", as a
    /// native checkbox input's does.
    pub fn new(
        checked: Option<CheckedState>,
        default_checked: CheckedState,
        disabled: bool,
        required: bool,
        name: Option<String>,
        form: Option<String>,
        value: Option<String>,
    ) -> (r: Self)
        ensures
            r.is_internal() == (checked is None),
            r.checked() == checked.unwrap_or(default_checked),
            r.disabled() == disabled,
            r.required() == required,
            r.name_view() == match name {
                Option::Some(n) => Option::Some(n@),
                Option::None => Option::None::<Seq<char>>,
            },
            r.form_view() == match form {
                Option::Some(f) => Option::Some(f@),
                Option::None => Option::None::<Seq<char>>,
            },
            r.value_view() == match value {
                Option::Some(v) => v@,
                Option::None => "on"@,
            },
    {
        CheckboxState {
            cell: StateCell::new(checked, default_checked),
            disabled,
            required,
            name,
            form,
            value: match value {
                Option::Some(v) => v,
                Option::None => String::from_str("on"),
            },
        }
    }

    /// The trigger was clicked: the state toggles. An uncontrolled
    /// checkbox adopts the new state, a controlled one only reports it;
    /// the new state is always reported, so the change callback fires on
    /// every transition.
    pub fn on_trigger_click(&mut self) -> (r: CheckboxChange)
        ensures
            r.next == old(self).checked().spec_toggle(),
            r.next != CheckedState::Indeterminate,
            r.applied == old(self).is_internal(),
            final(self).checked() == if r.applied {
                r.next
            } else {
                old(self).checked()
            },
            final(self).is_internal() == old(self).is_internal(),
            final(self).disabled() == old(self).disabled(),
            final(self).required() == old(self).required(),
            final(self).name_view() == old(self).name_view(),
            final(self).form_view() == old(self).form_view(),
            final(self).value_view() == old(self).value_view(),
    {
        let next = self.cell.get().toggle();
        let applied = self.cell.request(next);
        CheckboxChange { applied, next }
    }

    /// The application re-supplied a controlled checked value.
    pub fn sync_checked(&mut self, checked: CheckedState)
        ensures
            final(self).checked() == checked,
            final(self).is_internal() == old(self).is_internal(),
            final(self).disabled() == old(self).disabled(),
            final(self).required() == old(self).required(),
            final(self).name_view() == old(self).name_view(),
            final(self).form_view() == old(self).form_view(),
            final(self).value_view() == old(self).value_view(),
    {
        self.cell.sync(checked);
    }

    pub fn get_checked(&self) -> (r: CheckedState)
        ensures
            r == self.checked(),
    {
        *self.cell.get()
    }

    pub fn is_disabled(&self) -> (r: bool)
        ensures
            r == self.disabled(),
    {
        self.disabled
    }

    pub fn is_required(&self) -> (r: bool)
        ensures
            r == self.required(),
    {
        self.required
    }

    /// The `name` attribute the form-mirror input submits under.
    pub fn name(&self) -> (r: Option<&String>)
        ensures
            match r {
                Option::Some(n) => self.name_view() == Option::Some(n@),
                Option::None => self.name_view() is None,
            },
    {
        self.name.as_ref()
    }

    /// The id of the form the form-mirror input belongs to.
    pub fn form(&self) -> (r: Option<&String>)
        ensures
            match r {
                Option::Some(f) => self.form_view() == Option::Some(f@),
                Option::None => self.form_view() is None,
            },
    {
        self.form.as_ref()
    }

    /// The `value` attribute the form-mirror input submits.
    pub fn value(&self) -> (r: &String)
        ensures
            r@ == self.value_view(),
    {
        &self.value
    }
}

/// Whether the indicator element is rendered: while checked or
/// indeterminate, or always when force-mounted (for exit animations).
pub fn indicator_visible(force_mount: bool, state: CheckedState) -> (r: bool)
    ensures
        r == (force_mount || state == CheckedState::Checked || state
            == CheckedState::Indeterminate),
{
    force_mount || matches!(state, CheckedState::Checked | CheckedState::Indeterminate)
}

/// Folds `n` toggles from `start`.
pub open spec fn spec_toggle_fold(start: CheckedState, n: nat) -> CheckedState
    decreases n,
{
    if n == 0 {
        start
    } else {
        spec_toggle_fold(start, (n - 1) as nat).spec_toggle()
    }
}

/// Law: toggling maps indeterminate to checked, checked to unchecked and
/// unchecked to checked, and however often a checkbox is toggled it never
/// returns to the indeterminate state - that state is only reachable by
/// assignment.
pub proof fn lemma_toggle_never_indeterminate(start: CheckedState, n: nat)
    requires
        n > 0,
    ensures
        CheckedState::Indeterminate.spec_toggle() == CheckedState::Checked,
        CheckedState::Checked.spec_toggle() == CheckedState::Unchecked,
        CheckedState::Unchecked.spec_toggle() == CheckedState::Checked,
        spec_toggle_fold(start, n) != CheckedState::Indeterminate,
    decreases n,
{
    if n > 1 {
        lemma_toggle_never_indeterminate(start, (n - 1) as nat);
    }
}

pub const CHECKBOX_TRIGGER_CLASS: &'static str =
    "peer inline-flex h-4 w-4 shrink-0 items-center justify-center border border-primary rounded bg-background ring-offset-background cursor-pointer disabled:cursor-not-allowed disabled:opacity-50 focus-visible:outline-none focus-visible:ring-2 focus-visible:ring-ring focus-visible:ring-offset-2 data-[state=checked]:bg-primary data-[state=checked]:text-primary-foreground";

pub const CHECKBOX_INDICATOR_CLASS: &'static str =
    "flex items-center justify-center text-current pointer-events-none";

pub const CHECKBOX_LABEL_CLASS: &'static str =
    "text-sm font-medium leading-none peer-disabled:cursor-not-allowed peer-disabled:opacity-70 cursor-pointer";

/// The class attribute of the checkbox trigger button.
pub fn checkbox_trigger_class(class: Option<&str>) -> (r: String)
    ensures
        r@ == cn_spec(seq![Some(CHECKBOX_TRIGGER_CLASS@), opt_view(class)]),
{
    compose2(CHECKBOX_TRIGGER_CLASS, class)
}

/// The class attribute of the checkbox indicator.
pub fn checkbox_indicator_class(class: Option<&str>) -> (r: String)
    ensures
        r@ == cn_spec(seq![Some(CHECKBOX_INDICATOR_CLASS@), opt_view(class)]),
{
    compose2(CHECKBOX_INDICATOR_CLASS, class)
}

/// The class attribute of the checkbox label.
pub fn checkbox_label_class(class: Option<&str>) -> (r: String)
    ensures
        r@ == cn_spec(seq![Some(CHECKBOX_LABEL_CLASS@), opt_view(class)]),
{
    compose2(CHECKBOX_LABEL_CLASS, class)
}

} // verus!
