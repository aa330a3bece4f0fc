//! The passthrough forwarder: which events reach the synthetic device.
//!
//! Events are collected until the device ends a report; the report is then
//! handed out in the order in which it came. Key events of the chord are left out
//! while suppression is on. Nothing else is changed or dropped.

use crate::event::{classify, event_class, is_sync_report, EventClass, RawEvent, SYN_REPORT};
use vstd::prelude::*;

verus! {

/// The event is a key event of the chord and suppression is on.
pub open spec fn is_suppressed(keys: Seq<u16>, suppress: bool, event: RawEvent) -> bool {
    suppress && match event_class(event) {
        EventClass::Key(code, _) => keys.contains(code),
        _ => false,
    }
}

/// One step of the forwarder: the events still held back afterwards, and the
/// report that is handed out, if this event ended one.
pub open spec fn forward_step(
    pending: Seq<RawEvent>,
    keys: Seq<u16>,
    suppress: bool,
    event: RawEvent,
) -> (Seq<RawEvent>, Option<Seq<RawEvent>>) {
    if is_suppressed(keys, suppress, event) {
        (pending, None)
    } else if is_sync_report(event) {
        (Seq::empty(), Some(pending.push(event)))
    } else {
        (pending.push(event), None)
    }
}

/// The forwarder run over a batch: the events still held back afterwards,
/// and everything handed out, in order.
pub open spec fn forward_all(
    pending: Seq<RawEvent>,
    keys: Seq<u16>,
    suppress: bool,
    events: Seq<RawEvent>,
) -> (Seq<RawEvent>, Seq<RawEvent>)
    decreases events.len(),
{
    if events.len() == 0 {
        (pending, Seq::empty())
    } else {
        let (held, sent) = forward_all(pending, keys, suppress, events.drop_last());
        let (held_after, flushed) = forward_step(held, keys, suppress, events.last());
        match flushed {
            Some(report) => (held_after, sent + report),
            None => (held_after, sent),
        }
    }
}

/// Whether a key code belongs to the chord.
pub fn chord_contains(keys: &Vec<u16>, code: u16) -> (found: bool)
    ensures
        found == keys@.contains(code),
{
    let mut i: usize = 0;
    while i < keys.len()
        invariant
            i <= keys.len(),
            forall|j: int| 0 <= j < i ==> keys@[j] != code,
        decreases keys.len() - i,
    {
        if keys[i] == code {
            return true;
        }
        i += 1;
    }
    false
}

/// Events of the current report that wait for its end.
pub struct Forwarder {
    pending: Vec<RawEvent>,
}

impl View for Forwarder {
    type V = Seq<RawEvent>;

    closed spec fn view(&self) -> Seq<RawEvent> {
        self.pending@
    }
}

impl Forwarder {
    /// A forwarder that holds nothing back.
    pub fn new() -> (forwarder: Forwarder)
        ensures
            forwarder@ == Seq::<RawEvent>::empty(),
    {
        Forwarder { pending: Vec::new() }
    }

    /// Number of events held back.
    pub fn pending_len(&self) -> (len: usize)
        ensures
            len == self@.len(),
    {
        self.pending.len()
    }

    /// Drops what is held back, as when the synthetic device is rebuilt.
    pub fn clear(&mut self)
        ensures
            final(self)@ == Seq::<RawEvent>::empty(),
    {
        self.pending.clear();
    }

    /// Takes one event. A suppressed event is dropped; an event that ends a
    /// report hands out the whole report, itself included; any other event
    /// is held back.
    pub fn forward(&mut self, keys: &Vec<u16>, suppress: bool, event: RawEvent) -> (flushed: Option<
        Vec<RawEvent>,
    >)
        ensures
            final(self)@ == forward_step(old(self)@, keys@, suppress, event).0,
            match forward_step(old(self)@, keys@, suppress, event).1 {
                Some(report) => flushed is Some && flushed->Some_0@ == report,
                None => flushed is None,
            },
    {
        let class = classify(event);
        if suppress {
            if let EventClass::Key(code, _) = class {
                if chord_contains(keys, code) {
                    return None;
                }
            }
        }
        self.pending.push(event);
        match class {
            EventClass::Sync(code) => {
                if code == SYN_REPORT {
                    let mut report: Vec<RawEvent> = Vec::new();
                    std::mem::swap(&mut self.pending, &mut report);
                    Some(report)
                } else {
                    None
                }
            },
            _ => None,
        }
    }

    /// Takes a batch of events and returns everything that is to be written
    /// to the synthetic device, in order.
    pub fn forward_batch(&mut self, keys: &Vec<u16>, suppress: bool, events: &Vec<RawEvent>) -> (sent:
        Vec<RawEvent>)
        ensures
            final(self)@ == forward_all(old(self)@, keys@, suppress, events@).0,
            sent@ == forward_all(old(self)@, keys@, suppress, events@).1,
    {
        let mut sent: Vec<RawEvent> = Vec::new();
        let mut i: usize = 0;
        while i < events.len()
            invariant
                i <= events.len(),
                self@ == forward_all(old(self)@, keys@, suppress, events@.take(i as int)).0,
                sent@ == forward_all(old(self)@, keys@, suppress, events@.take(i as int)).1,
            decreases events.len() - i,
        {
            proof {
                assert(events@.take(i + 1).drop_last() == events@.take(i as int));
                assert(events@.take(i + 1).last() == events@[i as int]);
            }
            if let Some(mut report) = self.forward(keys, suppress, events[i]) {
                sent.append(&mut report);
            }
            i += 1;
        }
        proof {
            assert(events@.take(events@.len() as int) == events@);
        }
        sent
    }
}

/// No suppressed event is ever handed out, provided none was being held back.
pub proof fn suppressed_events_never_forwarded(
    pending: Seq<RawEvent>,
    keys: Seq<u16>,
    suppress: bool,
    events: Seq<RawEvent>,
)
    requires
        forall|i: int| 0 <= i < pending.len() ==> !is_suppressed(keys, suppress, #[trigger] pending[i]),
    ensures
        ({
            let (held, sent) = forward_all(pending, keys, suppress, events);
            &&& forall|i: int| 0 <= i < held.len() ==> !is_suppressed(keys, suppress, #[trigger] held[i])
            &&& forall|i: int| 0 <= i < sent.len() ==> !is_suppressed(keys, suppress, #[trigger] sent[i])
        }),
    decreases events.len(),
{
    if events.len() > 0 {
        suppressed_events_never_forwarded(pending, keys, suppress, events.drop_last());
        let (held, sent) = forward_all(pending, keys, suppress, events.drop_last());
        let (held_after, sent_after) = forward_all(pending, keys, suppress, events);
        let last = events.last();
        assert forall|i: int| 0 <= i < held_after.len() implies !is_suppressed(
            keys,
            suppress,
            #[trigger] held_after[i],
        ) by {
            if i < held.len() {
                assert(held_after[i] == held[i]);
            }
        }
        assert forall|i: int| 0 <= i < sent_after.len() implies !is_suppressed(
            keys,
            suppress,
            #[trigger] sent_after[i],
        ) by {
            if i < sent.len() {
                assert(sent_after[i] == sent[i]);
            } else if i < sent.len() + held.len() {
                assert(sent_after[i] == held[i - sent.len()]);
            }
        }
    }
}

/// Every event that is not suppressed is handed out or still held back, once
/// and in the order in which it came: what was sent, followed by what is held, is
/// what was held before followed by the batch without its suppressed events.
pub proof fn forwarding_keeps_order(
    pending: Seq<RawEvent>,
    keys: Seq<u16>,
    suppress: bool,
    events: Seq<RawEvent>,
)
    ensures
        ({
            let (held, sent) = forward_all(pending, keys, suppress, events);
            sent + held == pending + events.filter(|e: RawEvent| !is_suppressed(keys, suppress, e))
        }),
    decreases events.len(),
{
    let keep = |e: RawEvent| !is_suppressed(keys, suppress, e);
    if events.len() == 0 {
        assert(events.filter(keep) =~= Seq::<RawEvent>::empty()) by {
            reveal(Seq::filter);
        }
        assert(Seq::<RawEvent>::empty() + pending =~= pending + Seq::<RawEvent>::empty());
    } else {
        forwarding_keeps_order(pending, keys, suppress, events.drop_last());
        let (held, sent) = forward_all(pending, keys, suppress, events.drop_last());
        let last = events.last();
        assert(events.filter(keep) == if keep(last) {
            events.drop_last().filter(keep).push(last)
        } else {
            events.drop_last().filter(keep)
        }) by {
            reveal(Seq::filter);
        }
        let (held_after, sent_after) = forward_all(pending, keys, suppress, events);
        if keep(last) {
            assert(sent_after + held_after =~= (sent + held).push(last));
            assert((pending + events.drop_last().filter(keep)).push(last) =~= pending
                + events.drop_last().filter(keep).push(last));
        }
    }
}

/// With suppression off nothing is dropped: what was sent, followed by what
/// is held, is what was held before followed by the whole batch.
pub proof fn forwarding_without_suppression(
    pending: Seq<RawEvent>,
    keys: Seq<u16>,
    events: Seq<RawEvent>,
)
    ensures
        ({
            let (held, sent) = forward_all(pending, keys, false, events);
            sent + held == pending + events
        }),
    decreases events.len(),
{
    if events.len() == 0 {
        assert(Seq::<RawEvent>::empty() + pending =~= pending + events);
    } else {
        forwarding_without_suppression(pending, keys, events.drop_last());
        let (held, sent) = forward_all(pending, keys, false, events.drop_last());
        let (held_after, sent_after) = forward_all(pending, keys, false, events);
        assert(sent_after + held_after =~= (sent + held).push(events.last()));
        assert((pending + events.drop_last()).push(events.last()) =~= pending + events);
    }
}

/// After a batch that ends with the end of a report nothing is held back.
pub proof fn report_end_flushes(
    pending: Seq<RawEvent>,
    keys: Seq<u16>,
    suppress: bool,
    events: Seq<RawEvent>,
)
    requires
        events.len() > 0,
        is_sync_report(events.last()),
    ensures
        forward_all(pending, keys, suppress, events).0 == Seq::<RawEvent>::empty(),
{
}

} // verus!
