//! The public-facing window monitor.
//!
//! A monitor registers itself as the bus's publish target on construction
//! (ensuring the hook thread is running, idempotently), consumes its private
//! event stream in FIFO order while applying the secondary empty-title
//! filter, and unregisters on destruction.  The suspending and the blocking
//! consumption forms of the deployed subsystem differ only in how they wait
//! for the channel; what they deliver is the one drain function verified
//! here, which the embedding program calls again once more events are
//! pending.

use vstd::prelude::*;
use crate::bus::{EventBus, spec_register, spec_unregister};
use crate::event::WindowEvent;
use crate::hook::{HookThread, spec_ensure_started};

verus! {

/// The next delivery from an inbox: skip leading events with empty titles,
/// hand out the first one with a non-empty title, and keep the rest; with
/// nothing deliverable pending, the whole inbox is drained and nothing is
/// handed out.
pub open spec fn spec_drain(s: Seq<(isize, Seq<char>)>) -> (Option<(isize, Seq<char>)>, Seq<
    (isize, Seq<char>),
>)
    decreases s.len(),
{
    if s.len() == 0 {
        (None, s)
    } else if s[0].1.len() > 0 {
        (Some(s[0]), s.drop_first())
    } else {
        spec_drain(s.drop_first())
    }
}

/// A live monitor of foreground-window events.  It is the sole owner of its
/// consumption side, identified by the inbox id the bus assigned to it.
#[derive(Debug)]
pub struct Window {
    id: usize,
}

impl Window {
    /// The inbox id the bus assigned to this monitor.
    pub closed spec fn id(&self) -> usize {
        self.id
    }

    /// Constructs a monitor: ensures the hook thread is running (idempotent;
    /// an already-started thread is not reinstalled) and registers a fresh
    /// target with the bus, taking the slot from any previous registrant.
    pub fn new(bus: &mut EventBus, hook: &mut HookThread) -> (w: Window)
        requires
            old(bus).wf(),
        ensures
            final(bus)@ == spec_register(old(bus)@),
            final(hook).state() == spec_ensure_started(old(hook).state()),
            w.id() == old(bus)@.inboxes.len(),
            final(bus)@.slot == Some(w.id()),
            final(bus).wf(),
    {
        let _ = hook.ensure_started();
        let id = bus.register();
        Window { id }
    }

    /// The secondary filter: an event whose title is empty is discarded and
    /// consumption continues; any other event is returned as it is.
    pub fn on_event(&self, event: WindowEvent) -> (r: Option<WindowEvent>)
        ensures
            event.title@.len() == 0 ==> r is None,
            event.title@.len() > 0 ==> r == Some(event),
    {
        if event.title.as_str().is_empty() {
            None
        } else {
            Some(event)
        }
    }

    /// Consumes this monitor's next event with a non-empty title, in the
    /// exact order the events were published; empty-titled events are
    /// discarded along the way.  Returns `None` once nothing deliverable is
    /// pending — the point at which the deployed blocking and suspending
    /// forms wait for the next publication instead.
    pub fn events_blocking(&self, bus: &mut EventBus) -> (r: Option<WindowEvent>)
        requires
            old(bus).wf(),
            self.id() < old(bus)@.inboxes.len(),
        ensures
            final(bus).wf(),
            final(bus)@.slot == old(bus)@.slot,
            final(bus)@.inboxes == old(bus)@.inboxes.update(
                self.id() as int,
                spec_drain(old(bus)@.inboxes[self.id() as int]).1,
            ),
            ({
                let delivered = spec_drain(old(bus)@.inboxes[self.id() as int]).0;
                &&& r is Some <==> delivered is Some
                &&& r matches Some(e) ==> delivered == Some(e@)
                &&& r matches Some(e) ==> e.title@.len() > 0
            }),
    {
        loop
            invariant
                bus.wf(),
                self.id() < bus@.inboxes.len(),
                bus@.slot == old(bus)@.slot,
                bus@.inboxes.len() == old(bus)@.inboxes.len(),
                forall|j: int|
                    0 <= j < bus@.inboxes.len() && j != self.id() ==> bus@.inboxes[j] == old(
                        bus,
                    )@.inboxes[j],
                spec_drain(bus@.inboxes[self.id() as int]) == spec_drain(
                    old(bus)@.inboxes[self.id() as int],
                ),
            decreases bus@.inboxes[self.id() as int].len(),
        {
            let next = bus.pop_front(self.id);
            match next {
                None => {
                    proof {
                        assert(final(bus)@.inboxes =~= old(bus)@.inboxes.update(
                            self.id() as int,
                            spec_drain(old(bus)@.inboxes[self.id() as int]).1,
                        ));
                    }
                    return None;
                }
                Some(e) => {
                    match self.on_event(e) {
                        Some(ev) => {
                            proof {
                                assert(final(bus)@.inboxes =~= old(bus)@.inboxes.update(
                                    self.id() as int,
                                    spec_drain(old(bus)@.inboxes[self.id() as int]).1,
                                ));
                            }
                            return Some(ev);
                        }
                        None => {}
                    }
                }
            }
        }
    }

    /// The suspending consumption form.  What it delivers — and in which
    /// order, and under which filter — is exactly `events_blocking`; the two
    /// deployed forms differ only in how the caller waits for the next
    /// publication, which is the embedding runtime's affair.
    pub fn events(&self, bus: &mut EventBus) -> (r: Option<WindowEvent>)
        requires
            old(bus).wf(),
            self.id() < old(bus)@.inboxes.len(),
        ensures
            final(bus).wf(),
            final(bus)@.slot == old(bus)@.slot,
            final(bus)@.inboxes == old(bus)@.inboxes.update(
                self.id() as int,
                spec_drain(old(bus)@.inboxes[self.id() as int]).1,
            ),
            ({
                let delivered = spec_drain(old(bus)@.inboxes[self.id() as int]).0;
                &&& r is Some <==> delivered is Some
                &&& r matches Some(e) ==> delivered == Some(e@)
                &&& r matches Some(e) ==> e.title@.len() > 0
            }),
    {
        self.events_blocking(bus)
    }

    /// Destroys the monitor: unregisters its target from the bus.  Events
    /// published afterwards are silently dropped by the bus, and a fresh
    /// monitor created later starts with an empty inbox — no replay.
    pub fn destroy(self, bus: &mut EventBus)
        requires
            old(bus).wf(),
        ensures
            final(bus)@ == spec_unregister(old(bus)@, self.id()),
            final(bus).wf(),
    {
        bus.unregister(self.id);
    }

    /// The foreground controller: the outcome of asking the window manager
    /// to raise `hwnd` to the foreground, where `raised` is the manager's
    /// answer to that stateless call.  A refusal — a closed or invalid
    /// handle, or the manager declining — yields a recoverable error and
    /// nothing else; no retries, no side state, no panic.
    pub fn set_foreground_window(hwnd: isize, raised: bool) -> (r: Result<(), String>)
        ensures
            raised ==> r is Ok,
            !raised ==> (r matches Err(m) && m@ == "Failed to set foreground window"@),
    {
        let _ = hwnd;
        if raised {
            Ok(())
        } else {
            Err(String::from_str("Failed to set foreground window"))
        }
    }
}

} // verus!
