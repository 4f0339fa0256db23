//! The event-hook thread: its lifecycle state machine, the message-pump
//! decision, and the notification callback.
//!
//! The thread itself, the platform subscription and the pump are performed
//! by the embedding program on a dedicated native thread; it drives the
//! functions here with the values the platform hands back.  The callback
//! logic — decode the captured title, apply the ignore-list filter, publish
//! through the bus — is verified in full.

use vstd::prelude::*;
use crate::bus::{BusState, EventBus, spec_publish};
use crate::event::{WindowEvent, decode_utf16_lossy, is_ignored_title, lossy_utf16, spec_is_ignored};

verus! {

/// Lifecycle of the hook thread.  It is started lazily at most once per
/// process and keeps running for the process lifetime; `Failed` records a
/// subscription that could not be installed (the thread then stays passive,
/// producing no events), and `Unhooked` records the guaranteed release of
/// the subscription on thread teardown.
#[derive(Clone, Copy, Debug, PartialEq, Eq, Structural)]
pub enum HookState {
    Inactive,
    Installing,
    Active,
    Failed,
    Unhooked,
}

/// Lazy start: only an `Inactive` thread moves to `Installing`; in any other
/// state the request is idempotent and changes nothing.
pub open spec fn spec_ensure_started(s: HookState) -> HookState {
    if s == HookState::Inactive {
        HookState::Installing
    } else {
        s
    }
}

/// Tracks the state of the dedicated hook thread.
pub struct HookThread {
    state: HookState,
}

impl HookThread {
    /// The current lifecycle state.
    pub closed spec fn state(&self) -> HookState {
        self.state
    }

    /// Before anything is started, the thread is inactive.
    pub fn new() -> (h: HookThread)
        ensures
            h.state() == HookState::Inactive,
    {
        HookThread { state: HookState::Inactive }
    }

    /// Requests that the hook thread be running.  Returns whether a start
    /// was actually initiated: only from `Inactive`, so the thread is
    /// started at most once and an already-running thread is not
    /// reinstalled.
    pub fn ensure_started(&mut self) -> (started: bool)
        ensures
            final(self).state() == spec_ensure_started(old(self).state()),
            started == (old(self).state() == HookState::Inactive),
    {
        match self.state {
            HookState::Inactive => {
                self.state = HookState::Installing;
                true
            }
            _ => false,
        }
    }

    /// Records the outcome of the platform's subscription-install call: the
    /// thread becomes `Active` on success and `Failed` otherwise.  Failure
    /// leaves the thread passive; it never escalates.
    pub fn complete_install(&mut self, installed: bool)
        requires
            old(self).state() == HookState::Installing,
        ensures
            final(self).state() == if installed {
                HookState::Active
            } else {
                HookState::Failed
            },
    {
        if installed {
            self.state = HookState::Active;
        } else {
            self.state = HookState::Failed;
        }
    }

    /// Records the release of the subscription on thread teardown.  Only an
    /// installed subscription is there to release; in any other state
    /// nothing changes.
    pub fn release(&mut self)
        ensures
            final(self).state() == if old(self).state() == HookState::Active {
                HookState::Unhooked
            } else {
                old(self).state()
            },
    {
        match self.state {
            HookState::Active => {
                self.state = HookState::Unhooked;
            }
            _ => {}
        }
    }

    /// Whether the subscription is installed and events can be produced.
    pub fn is_active(&self) -> (b: bool)
        ensures
            b == (self.state() == HookState::Active),
    {
        match self.state {
            HookState::Active => true,
            _ => false,
        }
    }

    /// Whether a start was initiated and the platform install call is owed.
    pub fn needs_install(&self) -> (b: bool)
        ensures
            b == (self.state() == HookState::Installing),
    {
        match self.state {
            HookState::Installing => true,
            _ => false,
        }
    }
}

/// The fixed idle interval of the message pump, in milliseconds.
pub const IDLE_INTERVAL_MS: u64 = 10;

/// One decision of the pump loop.
#[derive(Clone, Copy, Debug, PartialEq, Eq, Structural)]
pub enum PumpAction {
    /// A message is pending: translate and dispatch it, which fires the
    /// notification callback synchronously.
    Dispatch,
    /// Nothing is pending: yield the thread for this many milliseconds
    /// before polling again.
    Sleep { millis: u64 },
}

/// One step of the message pump: dispatch a pending message, else yield for
/// the fixed idle interval.  The yield is always bounded and never zero, so
/// idle polling neither busy-spins nor stalls.
pub fn pump_step(has_message: bool) -> (a: PumpAction)
    ensures
        has_message ==> a == PumpAction::Dispatch,
        !has_message ==> a == (PumpAction::Sleep { millis: IDLE_INTERVAL_MS }),
        a matches PumpAction::Sleep { millis } ==> 0 < millis <= IDLE_INTERVAL_MS,
{
    if has_message {
        PumpAction::Dispatch
    } else {
        PumpAction::Sleep { millis: IDLE_INTERVAL_MS }
    }
}

/// What became of one raised notification.
#[derive(Clone, Copy, Debug, PartialEq, Eq, Structural)]
pub enum CallbackOutcome {
    /// The captured title was empty: treated as ignorable, never surfaced.
    EmptyTitle,
    /// The title contains an ignore-list entry: discarded before the bus.
    Ignored,
    /// No target is registered: the event is dropped by the bus.
    NoTarget,
    /// The event was appended to the registered target's inbox.
    Published,
}

/// The bus state after one notification for `hwnd` whose captured title
/// decodes from `units`: empty and ignore-listed titles leave the bus
/// untouched; everything else is published.
pub open spec fn spec_callback(b: BusState, hwnd: isize, units: Seq<u16>) -> BusState {
    let title = lossy_utf16(units);
    if title.len() == 0 || spec_is_ignored(title) {
        b
    } else {
        spec_publish(b, (hwnd, title))
    }
}

/// The notification callback, run synchronously on the hook thread's call
/// stack for each foreground-window change: decodes the title text the
/// platform captured for `hwnd` (lossily, tolerating invalid encoding),
/// discards empty and ignore-listed titles, and otherwise publishes the
/// event through the bus.  It suspends on nothing and never panics.
pub fn event_callback(bus: &mut EventBus, hwnd: isize, title_units: &[u16]) -> (outcome:
    CallbackOutcome)
    requires
        old(bus).wf(),
    ensures
        final(bus)@ == spec_callback(old(bus)@, hwnd, title_units@),
        final(bus).wf(),
        ({
            let title = lossy_utf16(title_units@);
            &&& title.len() == 0 ==> outcome == CallbackOutcome::EmptyTitle
            &&& title.len() > 0 && spec_is_ignored(title) ==> outcome == CallbackOutcome::Ignored
            &&& title.len() > 0 && !spec_is_ignored(title) && old(bus)@.slot is None ==> outcome
                == CallbackOutcome::NoTarget
            &&& title.len() > 0 && !spec_is_ignored(title) && old(bus)@.slot is Some ==> outcome
                == CallbackOutcome::Published
        }),
{
    let title = decode_utf16_lossy(title_units);
    if title.as_str().is_empty() {
        CallbackOutcome::EmptyTitle
    } else if is_ignored_title(title.as_str()) {
        CallbackOutcome::Ignored
    } else {
        let delivered = bus.publish(WindowEvent { hwnd, title });
        if delivered {
            CallbackOutcome::Published
        } else {
            CallbackOutcome::NoTarget
        }
    }
}

} // verus!
