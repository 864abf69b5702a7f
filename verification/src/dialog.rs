//! Dialog logic: open state, accessibility identifiers, body scroll lock
//! and keyboard focus containment.
//!
//! A modal dialog, while open, locks body scrolling (compensating for the
//! vanished scrollbar so the layout does not shift) and traps keyboard
//! focus among its focusable descendants. The host enumerates those
//! descendants and performs the actual style writes and focus moves; the
//! decisions are made here.

use vstd::prelude::*;

use crate::control::StateCell;
use crate::text::dec_digits;
use crate::text::u64_to_dec;

verus! {

/// The outcome of a dialog transition: the open state the dialog asks to
/// adopt (and reports to the change callback), and whether the cell
/// adopted it itself (uncontrolled mode).
#[derive(Clone, Copy, Debug, PartialEq, Eq, Structural)]
pub struct DialogChange {
    pub applied: bool,
    pub next_open: bool,
}

/// Generated element identifiers wiring the ARIA relationships of one
/// dialog instance: the trigger points at the content, the content is
/// labelled by the title and described by the description.
pub struct DialogIds {
    pub content: String,
    pub title: String,
    pub description: String,
}

impl DialogIds {
    /// Identifiers derived from three host-supplied random values;
    /// generated once at mount, stable for the instance lifetime.
    pub fn new(content_seed: u64, title_seed: u64, description_seed: u64) -> (r: Self)
        ensures
            r.content@ == "dialog-content-"@ + dec_digits(content_seed as nat),
            r.title@ == "dialog-title-"@ + dec_digits(title_seed as nat),
            r.description@ == "dialog-description-"@ + dec_digits(description_seed as nat),
    {
        let content = String::from_str("dialog-content-").concat(u64_to_dec(content_seed).as_str());
        let title = String::from_str("dialog-title-").concat(u64_to_dec(title_seed).as_str());
        let description = String::from_str("dialog-description-").concat(
            u64_to_dec(description_seed).as_str(),
        );
        DialogIds { content, title, description }
    }
}

/// Shared dialog state: the open flag (controlled or uncontrolled),
/// modality, and the generated identifiers.
pub struct DialogState {
    open: StateCell<bool>,
    modal: bool,
    ids: DialogIds,
}

impl DialogState {
    pub closed spec fn is_internal(self) -> bool {
        self.open.is_internal()
    }

    pub closed spec fn is_open(self) -> bool {
        self.open.value()
    }

    pub closed spec fn modal(self) -> bool {
        self.modal
    }

    pub closed spec fn content_id(self) -> Seq<char> {
        self.ids.content@
    }

    pub closed spec fn title_id(self) -> Seq<char> {
        self.ids.title@
    }

    pub closed spec fn description_id(self) -> Seq<char> {
        self.ids.description@
    }

    /// A controlled cell around `open`, or an uncontrolled cell around
    /// `default_open`.
    pub fn new(open: Option<bool>, default_open: bool, modal: bool, ids: DialogIds) -> (r: Self)
        ensures
            r.is_internal() == (open is None),
            r.is_open() == open.unwrap_or(default_open),
            r.modal() == modal,
            r.content_id() == ids.content@,
            r.title_id() == ids.title@,
            r.description_id() == ids.description@,
    {
        DialogState { open: StateCell::new(open, default_open), modal, ids }
    }

    pub fn is_modal(&self) -> (r: bool)
        ensures
            r == self.modal(),
    {
        self.modal
    }

    /// The generated id of the content element, as `aria-controls` on the
    /// trigger points at it.
    pub fn get_content_id(&self) -> (r: &String)
        ensures
            r@ == self.content_id(),
    {
        &self.ids.content
    }

    /// The generated id the title element carries and `aria-labelledby`
    /// names.
    pub fn get_title_id(&self) -> (r: &String)
        ensures
            r@ == self.title_id(),
    {
        &self.ids.title
    }

    /// The generated id the description element carries and
    /// `aria-describedby` names.
    pub fn get_description_id(&self) -> (r: &String)
        ensures
            r@ == self.description_id(),
    {
        &self.ids.description
    }

    /// The application re-supplied a controlled open value.
    pub fn sync_open(&mut self, open: bool)
        ensures
            final(self).is_open() == open,
            final(self).is_internal() == old(self).is_internal(),
            final(self).modal() == old(self).modal(),
            final(self).content_id() == old(self).content_id(),
            final(self).title_id() == old(self).title_id(),
            final(self).description_id() == old(self).description_id(),
    {
        self.open.sync(open);
    }

    /// Requests the open state `next`: an uncontrolled dialog adopts it,
    /// a controlled one only reports it. The request is always reported,
    /// so the change callback fires on every transition.
    fn request(&mut self, next: bool) -> (r: DialogChange)
        ensures
            r.next_open == next,
            r.applied == old(self).is_internal(),
            final(self).is_open() == if r.applied {
                next
            } else {
                old(self).is_open()
            },
            final(self).is_internal() == old(self).is_internal(),
            final(self).modal() == old(self).modal(),
            final(self).content_id() == old(self).content_id(),
            final(self).title_id() == old(self).title_id(),
            final(self).description_id() == old(self).description_id(),
    {
        let applied = self.open.request(next);
        DialogChange { applied, next_open: next }
    }

    /// The trigger was clicked: the open state flips.
    pub fn toggle(&mut self) -> (r: DialogChange)
        ensures
            r.next_open == !old(self).is_open(),
            r.applied == old(self).is_internal(),
            final(self).is_open() == if r.applied {
                !old(self).is_open()
            } else {
                old(self).is_open()
            },
            final(self).is_internal() == old(self).is_internal(),
            final(self).modal() == old(self).modal(),
            final(self).content_id() == old(self).content_id(),
            final(self).title_id() == old(self).title_id(),
            final(self).description_id() == old(self).description_id(),
    {
        let next = !*self.open.get();
        self.request(next)
    }

    /// A close control was activated: the dialog asks to close.
    pub fn close(&mut self) -> (r: DialogChange)
        ensures
            r.next_open == false,
            r.applied == old(self).is_internal(),
            final(self).is_open() == if r.applied {
                false
            } else {
                old(self).is_open()
            },
            final(self).is_internal() == old(self).is_internal(),
            final(self).modal() == old(self).modal(),
            final(self).content_id() == old(self).content_id(),
            final(self).title_id() == old(self).title_id(),
            final(self).description_id() == old(self).description_id(),
    {
        self.request(false)
    }

    /// Escape was pressed while the content is shown: closes, unless
    /// closing on escape is disabled.
    pub fn on_escape(&mut self, close_on_escape: bool) -> (r: Option<DialogChange>)
        ensures
            !close_on_escape ==> r is None && *final(self) == *old(self),
            close_on_escape ==> (r matches Some(c) && c.next_open == false && c.applied == old(
                self,
            ).is_internal()),
            final(self).is_open() == if close_on_escape && old(self).is_internal() {
                false
            } else {
                old(self).is_open()
            },
            final(self).is_internal() == old(self).is_internal(),
            final(self).modal() == old(self).modal(),
            final(self).content_id() == old(self).content_id(),
            final(self).title_id() == old(self).title_id(),
            final(self).description_id() == old(self).description_id(),
    {
        if close_on_escape {
            Some(self.close())
        } else {
            None
        }
    }

    /// The backdrop was clicked: closes, unless closing on outside click
    /// is disabled.
    pub fn on_backdrop_click(&mut self, close_on_outside_click: bool) -> (r: Option<DialogChange>)
        ensures
            !close_on_outside_click ==> r is None && *final(self) == *old(self),
            close_on_outside_click ==> (r matches Some(c) && c.next_open == false && c.applied
                == old(self).is_internal()),
            final(self).is_open() == if close_on_outside_click && old(self).is_internal() {
                false
            } else {
                old(self).is_open()
            },
            final(self).is_internal() == old(self).is_internal(),
            final(self).modal() == old(self).modal(),
            final(self).content_id() == old(self).content_id(),
            final(self).title_id() == old(self).title_id(),
            final(self).description_id() == old(self).description_id(),
    {
        if close_on_outside_click {
            Some(self.close())
        } else {
            None
        }
    }

    /// Whether the overlay is rendered: only modal dialogs have one, and
    /// only while open.
    pub fn overlay_visible(&self) -> (r: bool)
        ensures
            r == (self.modal() && self.is_open()),
    {
        self.modal && *self.open.get()
    }

    /// Whether the content is rendered: only while open.
    pub fn content_visible(&self) -> (r: bool)
        ensures
            r == self.is_open(),
    {
        *self.open.get()
    }

    /// Whether the scroll lock and focus trap apply: only modal dialogs
    /// while open.
    pub fn effects_active(&self) -> (r: bool)
        ensures
            r == (self.modal() && self.is_open()),
    {
        self.modal && *self.open.get()
    }
}

/// Where initial focus goes when a modal dialog opens: the first
/// focusable descendant, and only the first, when there is one.
pub fn initial_focus(focusable_count: usize) -> (r: Option<usize>)
    ensures
        focusable_count > 0 ==> r == Some(0usize),
        focusable_count == 0 ==> r is None,
{
    if focusable_count > 0 {
        Some(0)
    } else {
        None
    }
}

/// What the keydown interceptor does with a Tab press inside the dialog,
/// given the index of the focused descendant among the `focusable_count`
/// focusable ones: `Some(i)` forces focus to descendant `i` (suppressing
/// the browser default), `None` lets the browser move focus normally.
/// Only the wrap-around edges are intercepted.
pub fn trap_tab(active: usize, focusable_count: usize, shift: bool) -> (r: Option<usize>)
    requires
        active < focusable_count,
    ensures
        shift && active == 0 ==> r == Some((focusable_count - 1) as usize),
        !shift && active == focusable_count - 1 ==> r == Some(0usize),
        !(shift && active == 0) && !(!shift && active == focusable_count - 1) ==> r is None,
{
    if shift {
        if active == 0 {
            Some(focusable_count - 1)
        } else {
            None
        }
    } else {
        if active == focusable_count - 1 {
            Some(0)
        } else {
            None
        }
    }
}

/// The focus position after a Tab press: the interceptor's wrap-around
/// where it fires, the browser's neighbouring move otherwise.
pub open spec fn spec_focus_after_tab(active: int, focusable_count: int, shift: bool) -> int {
    if shift {
        if active == 0 {
            focusable_count - 1
        } else {
            active - 1
        }
    } else {
        if active == focusable_count - 1 {
            0
        } else {
            active + 1
        }
    }
}

pub fn focus_after_tab(active: usize, focusable_count: usize, shift: bool) -> (r: usize)
    requires
        active < focusable_count,
    ensures
        r == spec_focus_after_tab(active as int, focusable_count as int, shift),
        r < focusable_count,
{
    match trap_tab(active, focusable_count, shift) {
        Option::Some(target) => target,
        Option::None => if shift {
            active - 1
        } else {
            active + 1
        },
    }
}

/// Law: the focus trap keeps keyboard focus inside the dialog. Focus
/// after a Tab press stays among the focusable descendants, Tab from the
/// last descendant wraps to the first, Shift+Tab from the first wraps to
/// the last, and Shift+Tab undoes Tab - so the descendants form one
/// cycle that focus never leaves.
pub proof fn lemma_focus_trap_cycles(active: int, focusable_count: int, shift: bool)
    requires
        0 < focusable_count,
        0 <= active < focusable_count,
    ensures
        0 <= spec_focus_after_tab(active, focusable_count, shift) < focusable_count,
        !shift && active == focusable_count - 1 ==> spec_focus_after_tab(
            active,
            focusable_count,
            shift,
        ) == 0,
        shift && active == 0 ==> spec_focus_after_tab(active, focusable_count, shift)
            == focusable_count - 1,
        spec_focus_after_tab(
            spec_focus_after_tab(active, focusable_count, false),
            focusable_count,
            true,
        ) == active,
{
}

/// The body styles the scroll lock touches: the overflow mode and the
/// right padding in pixels.
pub struct BodyStyle {
    pub overflow: String,
    pub padding_right_px: u64,
}

/// Applies and rolls back the body scroll lock of a modal dialog. At
/// most one snapshot is held: locking is idempotent until unlocked.
pub struct ScrollLockManager {
    /// The style captured when the lock was applied, to be restored.
    pub saved: Option<BodyStyle>,
}

impl ScrollLockManager {
    pub fn new() -> (r: Self)
        ensures
            r.saved is None,
    {
        ScrollLockManager { saved: None }
    }

    /// Locks body scrolling: captures the current style and returns the
    /// style to apply - overflow hidden, and the measured scrollbar
    /// width (window inner width minus document client width) as right
    /// padding so the layout does not shift. A zero-width scrollbar
    /// leaves the padding untouched.
    pub fn lock_body(&mut self, current: BodyStyle, inner_width: u64, client_width: u64) -> (next:
        BodyStyle)
        requires
            old(self).saved is None,
        ensures
            final(self).saved matches Some(s) && s.overflow@ == current.overflow@
                && s.padding_right_px == current.padding_right_px,
            next.overflow@ == "hidden"@,
            next.padding_right_px == if inner_width > client_width {
                (inner_width - client_width) as u64
            } else {
                current.padding_right_px
            },
    {
        let fallback_padding = current.padding_right_px;
        self.saved = Some(current);
        BodyStyle {
            overflow: String::from_str("hidden"),
            padding_right_px: if inner_width > client_width {
                inner_width - client_width
            } else {
                fallback_padding
            },
        }
    }

    /// Unlocks body scrolling: hands back the captured style for the
    /// host to restore. Without a captured style there is nothing to
    /// restore.
    pub fn unlock_body(&mut self) -> (restore: Option<BodyStyle>)
        ensures
            final(self).saved is None,
            old(self).saved matches Some(s) ==> (restore matches Some(r) && r.overflow@
                == s.overflow@ && r.padding_right_px == s.padding_right_px),
            old(self).saved is None ==> restore is None,
    {
        self.saved.take()
    }

    /// Reacts to an open-state transition: entering the modal-open state
    /// locks (once), leaving it unlocks. Returns the style the host must
    /// apply to the body, if any.
    pub fn on_transition(&mut self, active: bool, current: BodyStyle, inner_width: u64, client_width: u64) -> (next: Option<BodyStyle>)
        ensures
            active && old(self).saved is None ==> (next matches Some(n) && n.overflow@ == "hidden"@
                && n.padding_right_px == (if inner_width > client_width {
                (inner_width - client_width) as u64
            } else {
                current.padding_right_px
            }) && (final(self).saved matches Some(s) && s.overflow@ == current.overflow@
                && s.padding_right_px == current.padding_right_px)),
            active && old(self).saved is Some ==> next is None && final(self).saved == old(
                self,
            ).saved,
            !active ==> final(self).saved is None && (match old(self).saved {
                Some(s) => next matches Some(n) && n.overflow@ == s.overflow@ && n.padding_right_px
                    == s.padding_right_px,
                None => next is None,
            }),
    {
        if active {
            if self.saved.is_none() {
                Some(self.lock_body(current, inner_width, client_width))
            } else {
                None
            }
        } else {
            self.unlock_body()
        }
    }
}

/// The class attribute of a dialog slot: the slot's base class, with the
/// caller's class appended after a space when one is given.
pub fn dialog_slot_class(base: &str, class: &str) -> (r: String)
    ensures
        r@ == if class@.len() == 0 {
            base@
        } else {
            base@ + seq![' '] + class@
        },
{
    if class.unicode_len() == 0 {
        base.to_owned()
    } else {
        let r = base.to_owned().concat(" ").concat(class);
        proof {
            reveal_strlit(" ");
            assert(" "@ =~= seq![' ']);
        }
        r
    }
}

} // verus!
