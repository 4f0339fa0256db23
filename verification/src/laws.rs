//! The delivery guarantees of the subsystem, stated and proved over the
//! abstract bus state and the transitions that the executable functions are
//! specified against.

use vstd::prelude::*;
use crate::bus::{BusState, bus_wf, spec_publish, spec_register, spec_unregister};
use crate::event::{lossy_utf16, spec_is_ignored};
use crate::hook::spec_callback;
use crate::window::spec_drain;

verus! {

/// The events of an inbox that pass the empty-title filter, in arrival
/// order: exactly what a monitor draining the inbox will observe.
pub open spec fn spec_kept(s: Seq<(isize, Seq<char>)>) -> Seq<(isize, Seq<char>)>
    decreases s.len(),
{
    if s.len() == 0 {
        Seq::empty()
    } else if s[0].1.len() > 0 {
        seq![s[0]] + spec_kept(s.drop_first())
    } else {
        spec_kept(s.drop_first())
    }
}

/// Appending an event to an inbox appends it to the kept events if its
/// title is non-empty, and changes them not at all otherwise.
pub proof fn lemma_kept_push(s: Seq<(isize, Seq<char>)>, e: (isize, Seq<char>))
    ensures
        spec_kept(s.push(e)) == if e.1.len() > 0 {
            spec_kept(s).push(e)
        } else {
            spec_kept(s)
        },
    decreases s.len(),
{
    if s.len() == 0 {
        assert(s.push(e).drop_first() =~= Seq::empty());
        if e.1.len() > 0 {
            assert(seq![e] + spec_kept(Seq::empty()) =~= spec_kept(s).push(e));
        }
    } else {
        assert(s.push(e).drop_first() =~= s.drop_first().push(e));
        lemma_kept_push(s.drop_first(), e);
        if s[0].1.len() > 0 {
            if e.1.len() > 0 {
                assert(seq![s[0]] + spec_kept(s.drop_first()).push(e) =~= (seq![s[0]]
                    + spec_kept(s.drop_first())).push(e));
            }
        }
    }
}

/// Draining delivers exactly the kept events, oldest first: with none kept
/// the whole inbox is consumed and nothing is delivered; otherwise the first
/// kept event is delivered and the rest keep their order.
pub proof fn lemma_drain_delivers_kept(s: Seq<(isize, Seq<char>)>)
    ensures
        spec_kept(s).len() == 0 ==> spec_drain(s) == (
            None::<(isize, Seq<char>)>,
            Seq::<(isize, Seq<char>)>::empty(),
        ),
        spec_kept(s).len() > 0 ==> spec_drain(s).0 == Some(spec_kept(s)[0]) && spec_kept(
            spec_drain(s).1,
        ) == spec_kept(s).drop_first(),
    decreases s.len(),
{
    if s.len() == 0 {
        assert(s =~= Seq::empty());
    } else if s[0].1.len() > 0 {
        assert(spec_kept(s)[0] == s[0]);
        assert((seq![s[0]] + spec_kept(s.drop_first())).drop_first() =~= spec_kept(
            s.drop_first(),
        ));
    } else {
        lemma_drain_delivers_kept(s.drop_first());
    }
}

/// Every delivered event carries a non-empty title.
pub proof fn lemma_delivered_title_nonempty(s: Seq<(isize, Seq<char>)>)
    ensures
        spec_drain(s).0 matches Some(ev) ==> ev.1.len() > 0,
    decreases s.len(),
{
    if s.len() > 0 && s[0].1.len() == 0 {
        lemma_delivered_title_nonempty(s.drop_first());
    }
}

/// Whatever draining delivers was pending in the inbox: a monitor observes
/// nothing that was not published to it.
pub proof fn lemma_delivered_was_pending(s: Seq<(isize, Seq<char>)>)
    ensures
        spec_drain(s).0 matches Some(ev) ==> s.contains(ev),
    decreases s.len(),
{
    if s.len() == 0 {
    } else if s[0].1.len() > 0 {
        assert(s.contains(s[0]));
    } else {
        lemma_delivered_was_pending(s.drop_first());
        if spec_drain(s).0 is Some {
            let ev = spec_drain(s).0->0;
            let i = choose|i: int| 0 <= i < s.drop_first().len() && s.drop_first()[i] == ev;
            assert(s[i + 1] == ev);
        }
    }
}

/// What draining leaves behind was also pending before: consumption invents
/// no events.
pub proof fn lemma_drain_rest_was_pending(s: Seq<(isize, Seq<char>)>)
    ensures
        forall|j: int|
            0 <= j < spec_drain(s).1.len() ==> s.contains(#[trigger] spec_drain(s).1[j]),
    decreases s.len(),
{
    if s.len() == 0 {
    } else if s[0].1.len() > 0 {
        assert forall|j: int| 0 <= j < spec_drain(s).1.len() implies s.contains(
            #[trigger] spec_drain(s).1[j],
        ) by {
            assert(s[j + 1] == spec_drain(s).1[j]);
        }
    } else {
        lemma_drain_rest_was_pending(s.drop_first());
        assert(spec_drain(s) == spec_drain(s.drop_first()));
        assert forall|j: int| 0 <= j < spec_drain(s).1.len() implies s.contains(
            #[trigger] spec_drain(s).1[j],
        ) by {
            let ev = spec_drain(s).1[j];
            assert(spec_drain(s.drop_first()).1[j] == ev);
            assert(s.drop_first().contains(ev));
            let i = choose|i: int| 0 <= i < s.drop_first().len() && s.drop_first()[i] == ev;
            assert(s[i + 1] == ev);
        }
    }
}

/// No inbox holds an event whose title contains an ignore-list entry.
pub open spec fn no_ignored_inboxed(b: BusState) -> bool {
    forall|i: int, j: int|
        0 <= i < b.inboxes.len() && 0 <= j < b.inboxes[i].len() ==> !spec_is_ignored(
            (#[trigger] b.inboxes[i][j]).1,
        )
}

/// A notification whose captured title contains an ignore-list entry leaves
/// the bus exactly as it was: it is never published to any monitor.
pub proof fn lemma_ignored_never_published(b: BusState, hwnd: isize, units: Seq<u16>)
    requires
        spec_is_ignored(lossy_utf16(units)),
    ensures
        spec_callback(b, hwnd, units) == b,
{
}

/// The hook-side filter keeps every inbox clean: a notification, whatever
/// its title, never puts an ignore-listed title into any inbox.
pub proof fn lemma_callback_keeps_inboxes_clean(b: BusState, hwnd: isize, units: Seq<u16>)
    requires
        bus_wf(b),
        no_ignored_inboxed(b),
    ensures
        no_ignored_inboxed(spec_callback(b, hwnd, units)),
{
    let title = lossy_utf16(units);
    if title.len() > 0 && !spec_is_ignored(title) && b.slot is Some {
        let i = b.slot->0 as int;
        let after = spec_callback(b, hwnd, units);
        assert forall|x: int, j: int|
            0 <= x < after.inboxes.len() && 0 <= j < after.inboxes[x].len() implies !spec_is_ignored(
            (#[trigger] after.inboxes[x][j]).1,
        ) by {
            if x == i && j == b.inboxes[i].len() {
                assert(after.inboxes[x][j] == (hwnd, title));
            } else {
                assert(after.inboxes[x][j] == b.inboxes[x][j]);
            }
        }
    }
}

/// Registering a fresh monitor adds only an empty inbox: it cannot soil the
/// bus, and the new monitor starts with nothing to observe — no replay.
pub proof fn lemma_register_keeps_inboxes_clean(b: BusState)
    requires
        no_ignored_inboxed(b),
    ensures
        no_ignored_inboxed(spec_register(b)),
        spec_register(b).inboxes[spec_register(b).inboxes.len() - 1].len() == 0,
{
}

/// Unregistering changes no inbox: a clean bus stays clean.
pub proof fn lemma_unregister_keeps_inboxes_clean(b: BusState, id: usize)
    requires
        no_ignored_inboxed(b),
    ensures
        no_ignored_inboxed(spec_unregister(b, id)),
{
}

/// A monitor consuming its inbox keeps the bus clean: draining leaves only
/// events that were already pending.
pub proof fn lemma_consumption_keeps_inboxes_clean(b: BusState, id: int)
    requires
        no_ignored_inboxed(b),
        0 <= id < b.inboxes.len(),
    ensures
        no_ignored_inboxed(
            BusState { slot: b.slot, inboxes: b.inboxes.update(id, spec_drain(b.inboxes[id]).1) },
        ),
{
    lemma_drain_rest_was_pending(b.inboxes[id]);
    let after = BusState {
        slot: b.slot,
        inboxes: b.inboxes.update(id, spec_drain(b.inboxes[id]).1),
    };
    assert forall|x: int, j: int|
        0 <= x < after.inboxes.len() && 0 <= j < after.inboxes[x].len() implies !spec_is_ignored(
        (#[trigger] after.inboxes[x][j]).1,
    ) by {
        if x == id {
            let ev = after.inboxes[x][j];
            let i = choose|i: int| 0 <= i < b.inboxes[id].len() && b.inboxes[id][i] == ev;
            assert(!spec_is_ignored(b.inboxes[id][i].1));
        } else {
            assert(after.inboxes[x][j] == b.inboxes[x][j]);
        }
    }
}

/// From a clean bus, no monitor ever observes an ignore-listed title.
pub proof fn lemma_observed_never_ignored(b: BusState, id: int)
    requires
        no_ignored_inboxed(b),
        0 <= id < b.inboxes.len(),
    ensures
        spec_drain(b.inboxes[id]).0 matches Some(ev) ==> !spec_is_ignored(ev.1),
{
    lemma_delivered_was_pending(b.inboxes[id]);
    if spec_drain(b.inboxes[id]).0 is Some {
        let ev = spec_drain(b.inboxes[id]).0->0;
        let j = choose|j: int| 0 <= j < b.inboxes[id].len() && b.inboxes[id][j] == ev;
        assert(!spec_is_ignored(b.inboxes[id][j].1));
    }
}

/// Two notifications with non-empty, non-ignored titles, raised first for
/// handle `e1.0` and then for handle `e2.0`, are observed by the registered
/// monitor in exactly that order.
pub proof fn lemma_events_observed_in_order(
    b: BusState,
    e1: (isize, Seq<char>),
    e2: (isize, Seq<char>),
)
    requires
        bus_wf(b),
        b.slot is Some,
        e1.1.len() > 0,
        e2.1.len() > 0,
        spec_kept(b.inboxes[b.slot->0 as int]).len() == 0,
    ensures
        ({
            let i = b.slot->0 as int;
            let after = spec_publish(spec_publish(b, e1), e2);
            let first = spec_drain(after.inboxes[i]);
            let second = spec_drain(first.1);
            first.0 == Some(e1) && second.0 == Some(e2)
        }),
{
    let i = b.slot->0 as int;
    let s = b.inboxes[i];
    let after = spec_publish(spec_publish(b, e1), e2);
    assert(after.inboxes[i] == s.push(e1).push(e2));
    lemma_kept_push(s, e1);
    lemma_kept_push(s.push(e1), e2);
    assert(spec_kept(s.push(e1).push(e2)) =~= seq![e1, e2]);
    lemma_drain_delivers_kept(s.push(e1).push(e2));
    let first = spec_drain(after.inboxes[i]);
    assert(spec_kept(first.1) =~= seq![e2]);
    lemma_drain_delivers_kept(first.1);
}

/// After the registered monitor is destroyed, a later notification is
/// observed by nobody: the bus absorbs it unchanged, the destroyed
/// monitor's inbox gains nothing, and a monitor registered afterwards
/// starts with an empty inbox — no replay.
pub proof fn lemma_no_delivery_after_destroy(b: BusState, hwnd: isize, units: Seq<u16>)
    requires
        bus_wf(b),
        b.slot is Some,
    ensures
        ({
            let id = b.slot->0;
            let gone = spec_unregister(b, id);
            let after = spec_callback(gone, hwnd, units);
            &&& after == gone
            &&& after.inboxes[id as int] == b.inboxes[id as int]
            &&& spec_register(after).inboxes[spec_register(after).inboxes.len() - 1].len() == 0
        }),
{
}

/// Only the most-recently-constructed live monitor receives events:
/// registering a second monitor while the first is alive redirects delivery
/// away from the first, destroying the first thereafter changes nothing,
/// and destroying the second leaves no monitor registered even though the
/// first still exists.
pub proof fn lemma_last_registrant_wins(b: BusState, ev: (isize, Seq<char>))
    requires
        bus_wf(b),
        b.inboxes.len() + 1 < usize::MAX,
    ensures
        ({
            let id1 = b.inboxes.len() as usize;
            let b1 = spec_register(b);
            let id2 = b1.inboxes.len() as usize;
            let b2 = spec_register(b1);
            let after = spec_publish(b2, ev);
            &&& after.slot == Some(id2)
            &&& after.inboxes[id1 as int] == b2.inboxes[id1 as int]
            &&& after.inboxes[id2 as int] == b2.inboxes[id2 as int].push(ev)
            &&& spec_unregister(after, id1) == after
            &&& spec_unregister(after, id2).slot is None
            &&& spec_unregister(after, id2).inboxes == after.inboxes
        }),
{
}

} // verus!
