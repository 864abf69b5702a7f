//! Tooltip disclosure logic: delayed open, grace-period close.
//!
//! The machine mirrors the pointer and focus handling of a hover tooltip.
//! Opening from a pointer enter is usually delayed; closing after a
//! pointer leave is delayed by a grace period so the pointer can travel to
//! the tooltip content - or happens at once where hoverable content is
//! disabled. At most one timer is outstanding at any moment:
//! scheduling a new one always hands the previous one back to the host
//! for cancellation. Timers themselves live in the host; the machine only
//! records which timer id it is waiting for, with its purpose and
//! deadline, and ignores firings of any other id (a cancelled or stale
//! callback is a no-op).

use vstd::prelude::*;

use crate::text::cn;
use crate::text::cn_spec;
use crate::text::compose2;
use crate::text::opt_view;

verus! {

/// Default delay before a hover opens the tooltip, in milliseconds.
pub const DEFAULT_DELAY_DURATION: u64 = 400;

/// Default window for moving between triggers without a new delay, in
/// milliseconds.
pub const SKIP_DELAY_DURATION: u64 = 300;

/// Grace period for moving the pointer to the content before the tooltip
/// closes, in milliseconds.
pub const CLOSE_GRACE_PERIOD: u64 = 300;

#[derive(Clone, Copy, Debug, PartialEq, Eq, Structural)]
pub enum TimerPurpose {
    Open,
    Close,
}

/// The timer the machine is waiting for.
#[derive(Clone, Copy, Debug, PartialEq, Eq, Structural)]
pub struct PendingTimer {
    /// Host-assigned identifier of the scheduled callback.
    pub id: u64,
    /// What the machine does when it fires.
    pub purpose: TimerPurpose,
    /// When the host is asked to fire it.
    pub deadline: u64,
}

/// Configuration shared by every tooltip under one provider.
#[derive(Clone, Copy, Debug, PartialEq, Eq, Structural)]
pub struct TooltipProviderConfig {
    pub delay_duration: u64,
    pub skip_delay_duration: u64,
    pub disable_hoverable_content: bool,
}

impl TooltipProviderConfig {
    /// Provider configuration with absent fields defaulted.
    pub fn new(
        delay_duration: Option<u64>,
        skip_delay_duration: Option<u64>,
        disable_hoverable_content: bool,
    ) -> (r: Self)
        ensures
            r.delay_duration == delay_duration.unwrap_or(DEFAULT_DELAY_DURATION),
            r.skip_delay_duration == skip_delay_duration.unwrap_or(SKIP_DELAY_DURATION),
            r.disable_hoverable_content == disable_hoverable_content,
    {
        TooltipProviderConfig {
            delay_duration: match delay_duration {
                Option::Some(d) => d,
                Option::None => DEFAULT_DELAY_DURATION,
            },
            skip_delay_duration: match skip_delay_duration {
                Option::Some(d) => d,
                Option::None => SKIP_DELAY_DURATION,
            },
            disable_hoverable_content,
        }
    }
}

/// The interaction state of one tooltip.
pub struct TooltipMachine {
    /// Whether the tooltip is shown.
    pub is_open: bool,
    /// Whether the current open state was reached through the delay timer.
    pub was_open_delayed: bool,
    /// The single outstanding timer, if any.
    pub pending: Option<PendingTimer>,
    /// Whether the pointer is held down on the trigger.
    pub pointer_down: bool,
    /// Delay before a hover opens the tooltip.
    pub delay_duration: u64,
    /// When set, the content cannot be hovered: a pointer leaving the
    /// trigger closes the tooltip at once, with no grace period.
    pub disable_hoverable_content: bool,
    /// Whether opening goes through the delay timer at all.
    pub is_open_delayed: bool,
    /// Window for moving between triggers without a new delay.
    pub skip_delay_duration: u64,
}

impl TooltipMachine {
    /// Immediate open: any outstanding timer is dropped.
    pub open spec fn spec_handle_open(m: TooltipMachine) -> TooltipMachine {
        TooltipMachine { is_open: true, was_open_delayed: false, pending: None, ..m }
    }

    /// Immediate close: any outstanding timer is dropped.
    pub open spec fn spec_handle_close(m: TooltipMachine) -> TooltipMachine {
        TooltipMachine { is_open: false, pending: None, ..m }
    }

    /// Schedules the open timer, superseding any outstanding timer.
    pub open spec fn spec_handle_delayed_open(m: TooltipMachine, timer_id: u64, now: u64) -> TooltipMachine {
        TooltipMachine {
            pending: Some(
                PendingTimer {
                    id: timer_id,
                    purpose: TimerPurpose::Open,
                    deadline: (now + m.delay_duration) as u64,
                },
            ),
            ..m
        }
    }

    /// What a firing timer does: the awaited open timer opens (marking the
    /// open as delayed), the awaited close timer closes, anything else -
    /// a cancelled or stale id - is ignored.
    pub open spec fn spec_timer_fired(m: TooltipMachine, id: u64) -> TooltipMachine {
        match m.pending {
            Some(p) => if p.id == id {
                match p.purpose {
                    TimerPurpose::Open => TooltipMachine {
                        is_open: true,
                        was_open_delayed: true,
                        pending: None,
                        ..m
                    },
                    TimerPurpose::Close => TooltipMachine { is_open: false, pending: None, ..m },
                }
            } else {
                m
            },
            None => m,
        }
    }

    /// A pointer entering the trigger: drop any outstanding timer, and if
    /// the tooltip is closed, open it - through the delay timer when
    /// delayed opening is on, immediately otherwise.
    pub open spec fn spec_on_trigger_enter(m: TooltipMachine, timer_id: u64, now: u64) -> TooltipMachine {
        let cleared = TooltipMachine { pending: None, ..m };
        if !m.is_open {
            if m.is_open_delayed {
                Self::spec_handle_delayed_open(cleared, timer_id, now)
            } else {
                Self::spec_handle_open(cleared)
            }
        } else {
            cleared
        }
    }

    /// A pointer leaving the trigger: drop any outstanding timer; an open
    /// tooltip with hoverable content schedules the grace-period close,
    /// one with hoverable content disabled closes at once, and a closed
    /// one stays closed.
    pub open spec fn spec_on_trigger_leave(m: TooltipMachine, timer_id: u64, now: u64) -> TooltipMachine {
        let cleared = TooltipMachine { pending: None, ..m };
        if !m.disable_hoverable_content && m.is_open {
            TooltipMachine {
                pending: Some(
                    PendingTimer {
                        id: timer_id,
                        purpose: TimerPurpose::Close,
                        deadline: (now + CLOSE_GRACE_PERIOD) as u64,
                    },
                ),
                ..cleared
            }
        } else {
            Self::spec_handle_close(cleared)
        }
    }

    /// The timer id the host must cancel when the machine replaces or
    /// drops its outstanding timer.
    pub open spec fn spec_cancelled(m: TooltipMachine) -> Option<u64> {
        match m.pending {
            Some(p) => Some(p.id),
            None => None,
        }
    }

    /// A fresh machine under the given provider, with per-tooltip
    /// overrides applied.
    pub fn new(
        provider: &TooltipProviderConfig,
        default_open: bool,
        delay_duration: Option<u64>,
        disable_hoverable_content: Option<bool>,
    ) -> (r: Self)
        ensures
            r.is_open == default_open,
            !r.was_open_delayed,
            r.pending is None,
            !r.pointer_down,
            r.delay_duration == delay_duration.unwrap_or(provider.delay_duration),
            r.disable_hoverable_content == disable_hoverable_content.unwrap_or(
                provider.disable_hoverable_content,
            ),
            r.is_open_delayed,
            r.skip_delay_duration == provider.skip_delay_duration,
    {
        TooltipMachine {
            is_open: default_open,
            was_open_delayed: false,
            pending: None,
            pointer_down: false,
            delay_duration: match delay_duration {
                Option::Some(d) => d,
                Option::None => provider.delay_duration,
            },
            disable_hoverable_content: match disable_hoverable_content {
                Option::Some(d) => d,
                Option::None => provider.disable_hoverable_content,
            },
            is_open_delayed: true,
            skip_delay_duration: provider.skip_delay_duration,
        }
    }

    /// The `data-state` attribute: `closed`, or how the tooltip was
    /// opened.
    pub open spec fn spec_state_attribute(self) -> Seq<char> {
        if self.is_open {
            if self.was_open_delayed {
                "delayed-open"@
            } else {
                "instant-open"@
            }
        } else {
            "closed"@
        }
    }

    pub fn get_state_attribute(&self) -> (r: &'static str)
        ensures
            r@ == self.spec_state_attribute(),
    {
        if self.is_open {
            if self.was_open_delayed {
                "delayed-open"
            } else {
                "instant-open"
            }
        } else {
            "closed"
        }
    }

    /// Opens immediately. Returns the timer the host must cancel.
    pub fn handle_open(&mut self) -> (cancel: Option<u64>)
        ensures
            *final(self) == Self::spec_handle_open(*old(self)),
            cancel == Self::spec_cancelled(*old(self)),
    {
        let cancel = self.take_pending();
        self.was_open_delayed = false;
        self.is_open = true;
        cancel
    }

    /// Closes immediately. Returns the timer the host must cancel.
    pub fn handle_close(&mut self) -> (cancel: Option<u64>)
        ensures
            *final(self) == Self::spec_handle_close(*old(self)),
            cancel == Self::spec_cancelled(*old(self)),
    {
        let cancel = self.take_pending();
        self.is_open = false;
        cancel
    }

    /// Schedules the open timer under the host-assigned id `timer_id`,
    /// due at `now` plus the configured delay. Returns the superseded
    /// timer, which the host must cancel: only one timer is ever pending.
    pub fn handle_delayed_open(&mut self, timer_id: u64, now: u64) -> (cancel: Option<u64>)
        requires
            now + old(self).delay_duration <= u64::MAX,
        ensures
            *final(self) == Self::spec_handle_delayed_open(*old(self), timer_id, now),
            cancel == Self::spec_cancelled(*old(self)),
    {
        let cancel = self.take_pending();
        self.pending = Some(
            PendingTimer {
                id: timer_id,
                purpose: TimerPurpose::Open,
                deadline: now + self.delay_duration,
            },
        );
        cancel
    }

    /// The host reports that the timer with id `id` fired.
    pub fn timer_fired(&mut self, id: u64)
        ensures
            *final(self) == Self::spec_timer_fired(*old(self), id),
    {
        match self.pending {
            Option::Some(p) => {
                if p.id == id {
                    self.pending = None;
                    match p.purpose {
                        TimerPurpose::Open => {
                            self.was_open_delayed = true;
                            self.is_open = true;
                        },
                        TimerPurpose::Close => {
                            self.is_open = false;
                        },
                    }
                }
            },
            Option::None => {},
        }
    }

    /// The pointer entered the trigger.
    pub fn on_trigger_enter(&mut self, timer_id: u64, now: u64) -> (cancel: Option<u64>)
        requires
            now + old(self).delay_duration <= u64::MAX,
        ensures
            *final(self) == Self::spec_on_trigger_enter(*old(self), timer_id, now),
            cancel == Self::spec_cancelled(*old(self)),
    {
        let cancel = self.take_pending();
        if !self.is_open {
            if self.is_open_delayed {
                let none = self.handle_delayed_open(timer_id, now);
                proof {
                    assert(none is None);
                }
            } else {
                let none = self.handle_open();
                proof {
                    assert(none is None);
                }
            }
        }
        cancel
    }

    /// The pointer left the trigger: with hoverable content the
    /// grace-period close is scheduled, without it the tooltip closes at
    /// once.
    pub fn on_trigger_leave(&mut self, timer_id: u64, now: u64) -> (cancel: Option<u64>)
        requires
            now + CLOSE_GRACE_PERIOD <= u64::MAX,
        ensures
            *final(self) == Self::spec_on_trigger_leave(*old(self), timer_id, now),
            cancel == Self::spec_cancelled(*old(self)),
    {
        let cancel = self.take_pending();
        if !self.disable_hoverable_content && self.is_open {
            self.pending = Some(
                PendingTimer {
                    id: timer_id,
                    purpose: TimerPurpose::Close,
                    deadline: now + CLOSE_GRACE_PERIOD,
                },
            );
        } else {
            let none = self.handle_close();
            proof {
                assert(none is None);
            }
        }
        cancel
    }

    /// The pointer entered the tooltip content: a pending grace-period
    /// close is abandoned.
    pub fn on_content_enter(&mut self) -> (cancel: Option<u64>)
        ensures
            *final(self) == (TooltipMachine { pending: None, ..*old(self) }),
            cancel == Self::spec_cancelled(*old(self)),
    {
        self.take_pending()
    }

    /// The pointer left the tooltip content: the grace-period close is
    /// scheduled, superseding any outstanding timer.
    pub fn on_content_leave(&mut self, timer_id: u64, now: u64) -> (cancel: Option<u64>)
        requires
            now + CLOSE_GRACE_PERIOD <= u64::MAX,
        ensures
            *final(self) == (TooltipMachine {
                pending: Some(
                    PendingTimer {
                        id: timer_id,
                        purpose: TimerPurpose::Close,
                        deadline: (now + CLOSE_GRACE_PERIOD) as u64,
                    },
                ),
                ..*old(self)
            }),
            cancel == Self::spec_cancelled(*old(self)),
    {
        let cancel = self.take_pending();
        self.pending = Some(
            PendingTimer {
                id: timer_id,
                purpose: TimerPurpose::Close,
                deadline: now + CLOSE_GRACE_PERIOD,
            },
        );
        cancel
    }

    /// The pointer was pressed on the trigger: an open tooltip closes.
    pub fn on_pointer_down(&mut self) -> (cancel: Option<u64>)
        ensures
            *final(self) == (TooltipMachine {
                pointer_down: true,
                ..if old(self).is_open {
                    Self::spec_handle_close(*old(self))
                } else {
                    *old(self)
                }
            }),
            cancel == if old(self).is_open {
                Self::spec_cancelled(*old(self))
            } else {
                None::<u64>
            },
    {
        let cancel = if self.is_open {
            self.handle_close()
        } else {
            None
        };
        self.pointer_down = true;
        cancel
    }

    /// The pointer was released.
    pub fn on_pointer_up(&mut self)
        ensures
            *final(self) == (TooltipMachine { pointer_down: false, ..*old(self) }),
    {
        self.pointer_down = false;
    }

    /// The trigger received keyboard focus: opens immediately, unless the
    /// focus came from the pointer press itself.
    pub fn on_focus(&mut self) -> (cancel: Option<u64>)
        ensures
            *final(self) == if old(self).pointer_down {
                *old(self)
            } else {
                Self::spec_handle_open(*old(self))
            },
            cancel == if old(self).pointer_down {
                None::<u64>
            } else {
                Self::spec_cancelled(*old(self))
            },
    {
        if !self.pointer_down {
            self.handle_open()
        } else {
            None
        }
    }

    /// The trigger lost focus: closes immediately.
    pub fn on_blur(&mut self) -> (cancel: Option<u64>)
        ensures
            *final(self) == Self::spec_handle_close(*old(self)),
            cancel == Self::spec_cancelled(*old(self)),
    {
        self.handle_close()
    }

    /// Escape was pressed: closes immediately.
    pub fn on_escape(&mut self) -> (cancel: Option<u64>)
        ensures
            *final(self) == Self::spec_handle_close(*old(self)),
            cancel == Self::spec_cancelled(*old(self)),
    {
        self.handle_close()
    }

    /// The trigger was clicked or activated: closes immediately.
    pub fn on_activate(&mut self) -> (cancel: Option<u64>)
        ensures
            *final(self) == Self::spec_handle_close(*old(self)),
            cancel == Self::spec_cancelled(*old(self)),
    {
        self.handle_close()
    }

    fn take_pending(&mut self) -> (cancel: Option<u64>)
        ensures
            *final(self) == (TooltipMachine { pending: None, ..*old(self) }),
            cancel == Self::spec_cancelled(*old(self)),
    {
        let cancel = match self.pending {
            Option::Some(p) => Some(p.id),
            Option::None => None,
        };
        self.pending = None;
        cancel
    }
}

/// Law: scheduling a new open timer while one is pending supersedes it.
/// The prior timer id is the one handed back for cancellation, exactly
/// the new timer is pending afterwards with deadline `now` plus the
/// configured delay, a late firing of the superseded id changes nothing,
/// and the tooltip opens (as a delayed open) exactly when the new timer
/// fires.
pub proof fn lemma_tooltip_reschedule_supersedes(m: TooltipMachine, id2: u64, t2: u64)
    requires
        m.pending matches Some(p) && p.id != id2,
        t2 + m.delay_duration <= u64::MAX,
    ensures
        ({
            let m1 = TooltipMachine::spec_handle_delayed_open(m, id2, t2);
            let old_id = m.pending->Some_0.id;
            &&& TooltipMachine::spec_cancelled(m) == Some(old_id)
            &&& m1.pending == Some(
                PendingTimer {
                    id: id2,
                    purpose: TimerPurpose::Open,
                    deadline: (t2 + m.delay_duration) as u64,
                },
            )
            &&& TooltipMachine::spec_timer_fired(m1, old_id) == m1
            &&& TooltipMachine::spec_timer_fired(m1, id2).is_open
            &&& TooltipMachine::spec_timer_fired(m1, id2).was_open_delayed
            &&& TooltipMachine::spec_timer_fired(m1, id2).pending is None
        }),
{
}

/// Classes shared by every tooltip content panel, before positioning.
pub const TOOLTIP_CONTENT_CLASS: &'static str =
    "tooltip-content absolute z-50 rounded px-[15px] py-[10px] text-[15px] leading-none select-none bg-white text-primary shadow-[hsl(206_22%_7%_/_35%)_0px_10px_38px_-10px,_hsl(206_22%_7%_/_20%)_0px_10px_20px_-15px] dark:bg-gray-800 dark:text-white";

/// The side of the trigger the content prefers to appear on.
#[derive(Clone, Copy, Debug, PartialEq, Eq, Structural)]
pub enum TooltipSide {
    Top,
    Right,
    Bottom,
    Left,
}

impl TooltipSide {
    pub open spec fn spec_as_str(self) -> Seq<char> {
        match self {
            TooltipSide::Top => "top"@,
            TooltipSide::Right => "right"@,
            TooltipSide::Bottom => "bottom"@,
            TooltipSide::Left => "left"@,
        }
    }

    /// The `data-side` attribute value.
    pub fn as_str(&self) -> (r: &'static str)
        ensures
            r@ == self.spec_as_str(),
    {
        match self {
            TooltipSide::Top => "top",
            TooltipSide::Right => "right",
            TooltipSide::Bottom => "bottom",
            TooltipSide::Left => "left",
        }
    }

    pub open spec fn spec_position_class(self) -> Seq<char> {
        match self {
            TooltipSide::Top => "bottom-full left-1/2 -translate-x-1/2 mb-2"@,
            TooltipSide::Right => "left-full top-1/2 -translate-y-1/2 ml-2"@,
            TooltipSide::Bottom => "top-full left-1/2 -translate-x-1/2 mt-2"@,
            TooltipSide::Left => "right-full top-1/2 -translate-y-1/2 mr-2"@,
        }
    }

    /// The classes that place the content on this side of the trigger.
    pub fn position_class(&self) -> (r: &'static str)
        ensures
            r@ == self.spec_position_class(),
    {
        match self {
            TooltipSide::Top => "bottom-full left-1/2 -translate-x-1/2 mb-2",
            TooltipSide::Right => "left-full top-1/2 -translate-y-1/2 ml-2",
            TooltipSide::Bottom => "top-full left-1/2 -translate-x-1/2 mt-2",
            TooltipSide::Left => "right-full top-1/2 -translate-y-1/2 mr-2",
        }
    }
}

/// The full class attribute of the tooltip content: base and positioning
/// classes, then the caller's extra classes.
pub fn tooltip_content_class(side: TooltipSide, class: Option<&str>) -> (r: String)
    ensures
        r@ == cn_spec(
            seq![
                Some(TOOLTIP_CONTENT_CLASS@),
                Some(side.spec_position_class()),
                opt_view(class),
            ],
        ),
{
    let mut parts: Vec<Option<&str>> = Vec::new();
    parts.push(Some(TOOLTIP_CONTENT_CLASS));
    parts.push(Some(side.position_class()));
    parts.push(class);
    let ghost pv = parts.deep_view();
    let r = cn(parts);
    proof {
        assert(pv =~= seq![
            Some(TOOLTIP_CONTENT_CLASS@),
            Some(side.spec_position_class()),
            opt_view(class),
        ]);
    }
    r
}

/// The class attribute of the tooltip trigger: only the caller's classes.
pub fn tooltip_trigger_class(class: Option<&str>) -> (r: String)
    ensures
        r@ == cn_spec(seq![opt_view(class)]),
{
    let mut parts: Vec<Option<&str>> = Vec::new();
    parts.push(class);
    let ghost pv = parts.deep_view();
    let r = cn(parts);
    proof {
        assert(pv =~= seq![opt_view(class)]);
    }
    r
}

/// The class attribute of the tooltip arrow.
pub fn tooltip_arrow_class(class: Option<&str>) -> (r: String)
    ensures
        r@ == cn_spec(seq![Some("fill-primary"@), opt_view(class)]),
{
    compose2("fill-primary", class)
}

} // verus!
