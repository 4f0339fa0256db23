//! The process-wide single-slot event bus.
//!
//! The bus decouples the hook thread (producer) from the currently live
//! monitor (consumer).  It holds at most one publish target at a time; a new
//! registration silently replaces the previous one (last-writer-wins), and
//! unregistration clears the slot only if it still points at the caller's
//! own target.  In the deployed form the slot is guarded by a mutex and each
//! target is the sending half of an unbounded FIFO channel; here the bus
//! carries both the slot and every target's pending queue, so that each
//! transition can be stated and proved exactly.

use vstd::prelude::*;
use crate::event::WindowEvent;

verus! {

/// The abstract state of the bus: the id of the registered target, if any,
/// and the FIFO inbox of every monitor ever registered, indexed by monitor
/// id.  An inbox entry is a captured event as a pair of handle and title.
#[verifier::ext_equal]
pub struct BusState {
    pub slot: Option<usize>,
    pub inboxes: Seq<Seq<(isize, Seq<char>)>>,
}

/// A well-formed bus: a registered slot always points at an existing inbox.
pub open spec fn bus_wf(b: BusState) -> bool {
    b.slot is Some ==> b.slot->0 < b.inboxes.len()
}

/// Registration: a fresh target with an empty inbox takes the slot,
/// replacing whatever target was registered before.
pub open spec fn spec_register(b: BusState) -> BusState {
    BusState {
        slot: Some(b.inboxes.len() as usize),
        inboxes: b.inboxes.push(Seq::empty()),
    }
}

/// Publication: the event is appended to the registered target's inbox; with
/// no target registered the event is dropped and the bus is unchanged.
pub open spec fn spec_publish(b: BusState, ev: (isize, Seq<char>)) -> BusState {
    match b.slot {
        Some(i) => BusState {
            slot: b.slot,
            inboxes: b.inboxes.update(i as int, b.inboxes[i as int].push(ev)),
        },
        None => b,
    }
}

/// Unregistration: the slot is cleared only if it still points at `id`; a
/// slot already taken over by a newer registrant is left alone.
pub open spec fn spec_unregister(b: BusState, id: usize) -> BusState {
    if b.slot == Some(id) {
        BusState { slot: None, inboxes: b.inboxes }
    } else {
        b
    }
}

/// The single-slot registry between the hook thread and the live monitor.
pub struct EventBus {
    slot: Option<usize>,
    inboxes: Vec<Vec<WindowEvent>>,
}

impl View for EventBus {
    type V = BusState;

    closed spec fn view(&self) -> BusState {
        BusState {
            slot: self.slot,
            inboxes: self.inboxes@.map_values(
                |inbox: Vec<WindowEvent>| inbox@.map_values(|e: WindowEvent| e@),
            ),
        }
    }
}

impl EventBus {
    /// A registered slot always points at an existing inbox.
    pub open spec fn wf(&self) -> bool {
        bus_wf(self@)
    }

    /// Creates an empty bus: no target registered, no inbox yet.
    pub fn new() -> (b: EventBus)
        ensures
            b@.slot is None,
            b@.inboxes.len() == 0,
            b.wf(),
    {
        let b = EventBus { slot: None, inboxes: Vec::new() };
        proof {
            assert(b@.inboxes =~= Seq::empty());
        }
        b
    }

    /// Registers a fresh target and returns its id; any previous registrant
    /// loses the slot (last-writer-wins).
    pub fn register(&mut self) -> (id: usize)
        requires
            old(self).wf(),
        ensures
            final(self)@ == spec_register(old(self)@),
            id == old(self)@.inboxes.len(),
            final(self)@.slot == Some(id),
            final(self).wf(),
    {
        let id = self.inboxes.len();
        self.inboxes.push(Vec::new());
        self.slot = Some(id);
        proof {
            assert(final(self)@ =~~= spec_register(old(self)@));
        }
        id
    }

    /// Delivers `ev` to the registered target's inbox, if any.  Returns
    /// whether a target was registered; when none is, the event is dropped,
    /// never queued and never reported as an error.
    pub fn publish(&mut self, ev: WindowEvent) -> (delivered: bool)
        requires
            old(self).wf(),
        ensures
            final(self)@ == spec_publish(old(self)@, ev@),
            delivered == (old(self)@.slot is Some),
            final(self).wf(),
    {
        match self.slot {
            Some(i) => {
                let inbox = &mut self.inboxes[i];
                inbox.push(ev);
                proof {
                    assert(final(self)@ =~~= spec_publish(old(self)@, ev@));
                }
                true
            }
            None => false,
        }
    }

    /// Clears the slot if it still points at `id`; a slot already replaced
    /// by a newer registrant is left as it is.
    pub fn unregister(&mut self, id: usize)
        requires
            old(self).wf(),
        ensures
            final(self)@ == spec_unregister(old(self)@, id),
            final(self).wf(),
    {
        match self.slot {
            Some(cur) => {
                if cur == id {
                    self.slot = None;
                }
            }
            None => {}
        }
    }

    /// Removes and returns the oldest pending event of inbox `id`, or `None`
    /// if that inbox is empty.
    pub(crate) fn pop_front(&mut self, id: usize) -> (r: Option<WindowEvent>)
        requires
            old(self).wf(),
            id < old(self)@.inboxes.len(),
        ensures
            final(self)@.slot == old(self)@.slot,
            final(self).wf(),
            old(self)@.inboxes[id as int].len() == 0 ==> {
                &&& r is None
                &&& final(self)@ == old(self)@
            },
            old(self)@.inboxes[id as int].len() > 0 ==> {
                &&& r matches Some(e) && e@ == old(self)@.inboxes[id as int][0]
                &&& final(self)@.inboxes == old(self)@.inboxes.update(
                    id as int,
                    old(self)@.inboxes[id as int].drop_first(),
                )
            },
    {
        let inbox = &mut self.inboxes[id];
        if inbox.len() == 0 {
            proof {
                assert(final(self)@ =~~= old(self)@);
            }
            None
        } else {
            let e = inbox.remove(0);
            proof {
                assert(final(self)@.inboxes =~~= old(self)@.inboxes.update(
                    id as int,
                    old(self)@.inboxes[id as int].drop_first(),
                ));
            }
            Some(e)
        }
    }
}

} // verus!
