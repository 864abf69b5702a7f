//! Portal relocation logic.
//!
//! A portal renders a subtree in place and then, once mounted, physically
//! moves its root node under a target container elsewhere in the
//! document. The host looks the target up by selector and performs the
//! move; the decision - where the node ends up, that a missing target is
//! a silent no-op, that relocation happens once per mount - is made here.
//! Nodes are identified by host-assigned handles.

use vstd::prelude::*;

use crate::text::dec_digits;
use crate::text::u64_to_dec;

verus! {

/// The placement of one portal subtree.
#[derive(Clone, Copy, Debug, PartialEq, Eq, Structural)]
pub struct PortalMount {
    /// The parent the subtree was originally rendered under.
    pub original_parent: u64,
    /// The parent the subtree currently sits under; detached when absent.
    pub current_parent: Option<u64>,
    /// Whether the one-per-mount relocation has been performed.
    pub relocated: bool,
}

impl PortalMount {
    /// A freshly rendered portal subtree, still in its structural place.
    pub fn new(original_parent: u64) -> (r: Self)
        ensures
            r.original_parent == original_parent,
            r.current_parent == Some(original_parent),
            !r.relocated,
    {
        PortalMount { original_parent, current_parent: Some(original_parent), relocated: false }
    }

    /// The placement after relocating towards `target`: a first call with
    /// a found target moves the subtree under it, a first call without
    /// one changes nothing, and any later call changes nothing either.
    pub open spec fn spec_relocate(m: PortalMount, target: Option<u64>) -> PortalMount {
        if m.relocated {
            m
        } else {
            PortalMount {
                relocated: true,
                current_parent: match target {
                    Some(t) => Some(t),
                    None => m.current_parent,
                },
                ..m
            }
        }
    }

    /// Relocates the subtree under the target container the host found,
    /// once: with no matching target the subtree stays where it was
    /// rendered (a silent no-op, not an error), and a second call changes
    /// nothing.
    pub fn relocate(&mut self, target: Option<u64>) -> (moved: bool)
        ensures
            *final(self) == Self::spec_relocate(*old(self), target),
            moved == (!old(self).relocated && target is Some),
    {
        if self.relocated {
            return false;
        }
        self.relocated = true;
        match target {
            Option::Some(t) => {
                self.current_parent = Some(t);
                true
            },
            Option::None => false,
        }
    }

    /// Unmounting removes the subtree, wherever it currently sits.
    pub fn unmount(&mut self)
        ensures
            final(self).current_parent is None,
            final(self).original_parent == old(self).original_parent,
            final(self).relocated == old(self).relocated,
    {
        self.current_parent = None;
    }
}

/// Law: relocating a freshly mounted portal towards a found target
/// container puts it under that container - no longer under its original
/// structural parent, when the two differ - while a selector that
/// matches nothing leaves it under the original parent.
pub proof fn lemma_portal_placement(m: PortalMount, target: Option<u64>)
    requires
        !m.relocated,
        m.current_parent == Some(m.original_parent),
    ensures
        ({
            let n = PortalMount::spec_relocate(m, target);
            &&& n.original_parent == m.original_parent
            &&& (target matches Some(t) ==> n.current_parent == Some(t))
            &&& ((target matches Some(t) && t != m.original_parent) ==> n.current_parent != Some(
                m.original_parent,
            ))
            &&& (target is None ==> n.current_parent == Some(m.original_parent))
        }),
{
}

/// The generated `data-portal-id` value of one portal instance, derived
/// from a host-supplied random value at mount and stable from then on.
pub fn portal_element_id(seed: u64) -> (r: String)
    ensures
        r@ == "portal-"@ + dec_digits(seed as nat),
{
    String::from_str("portal-").concat(u64_to_dec(seed).as_str())
}

} // verus!
