//! Controlled and uncontrolled state ownership.
//!
//! Every stateful primitive holds its value in a [`StateCell`]. In
//! uncontrolled mode the cell owns the value and a change request mutates it
//! in place. In controlled mode the value belongs to the embedding
//! application: the cell never mutates it, a change request only reports the
//! value the application is asked to adopt. Either way the caller receives
//! the requested value, so a change-notification callback can fire on every
//! transition regardless of mode.

use vstd::prelude::*;

verus! {

/// Who owns the value held in a [`StateCell`].
#[derive(Clone, Copy, Debug, PartialEq, Eq, Structural)]
pub enum ControlSource {
    /// The embedding application supplied the value and keeps owning it.
    External,
    /// The cell owns the value, initialised from a default.
    Internal,
}

/// A value that is either component-owned or application-owned.
pub struct StateCell<T> {
    source: ControlSource,
    value: T,
}

impl<T> StateCell<T> {
    pub closed spec fn source(self) -> ControlSource {
        self.source
    }

    pub closed spec fn value(self) -> T {
        self.value
    }

    /// Whether a change request mutates this cell.
    pub open spec fn is_internal(self) -> bool {
        self.source() == ControlSource::Internal
    }

    /// A controlled cell around a supplied value, or an uncontrolled cell
    /// around the default.
    pub fn new(controlled: Option<T>, default: T) -> (r: Self)
        ensures
            match controlled {
                Option::Some(v) => r.source() == ControlSource::External && r.value() == v,
                Option::None => r.source() == ControlSource::Internal && r.value() == default,
            },
    {
        match controlled {
            Option::Some(v) => StateCell { source: ControlSource::External, value: v },
            Option::None => StateCell { source: ControlSource::Internal, value: default },
        }
    }

    pub fn get(&self) -> (r: &T)
        ensures
            *r == self.value(),
    {
        &self.value
    }

    /// Requests that the cell take the value `next`.
    ///
    /// An internal cell adopts it; an external cell is left untouched and
    /// the request is only reported. Returns whether the value was adopted.
    pub fn request(&mut self, next: T) -> (applied: bool)
        ensures
            applied == old(self).is_internal(),
            final(self).source() == old(self).source(),
            applied ==> final(self).value() == next,
            !applied ==> final(self).value() == old(self).value(),
    {
        match self.source {
            ControlSource::Internal => {
                self.value = next;
                true
            },
            ControlSource::External => false,
        }
    }

    /// Adopts `next` unconditionally: the application has accepted a change
    /// request (controlled mode) or re-supplied a controlled value.
    pub fn sync(&mut self, next: T)
        ensures
            final(self).source() == old(self).source(),
            final(self).value() == next,
    {
        self.value = next;
    }
}

} // verus!
