//! Raw input events as plain values, and how the input layer classifies them.

use vstd::prelude::*;

verus! {

/// One event as the kernel reports it, without its timestamp.
#[derive(Copy, Clone, Debug, PartialEq, Eq, Structural)]
pub struct RawEvent {
    /// Event type.
    pub kind: u16,
    /// Event code; its meaning depends on the type.
    pub code: u16,
    /// Event value; its meaning depends on the type.
    pub value: i32,
}

/// What an event is to this program.
#[derive(Copy, Clone, Debug, PartialEq, Eq, Structural)]
pub enum EventClass {
    /// A key changed state: the key's code and the event's value.
    Key(u16, i32),
    /// A synchronization event with its code.
    Sync(u16),
    /// Anything else.
    Other,
}

/// Event type of synchronization events.
pub const EV_SYN: u16 = 0;

/// Event type of key events.
pub const EV_KEY: u16 = 1;

/// Synchronization code that ends one report of the device.
pub const SYN_REPORT: u16 = 0;

/// The class of an event, decided by its type alone.
pub open spec fn event_class(event: RawEvent) -> EventClass {
    if event.kind == EV_KEY {
        EventClass::Key(event.code, event.value)
    } else if event.kind == EV_SYN {
        EventClass::Sync(event.code)
    } else {
        EventClass::Other
    }
}

/// The event ends a report.
pub open spec fn is_sync_report(event: RawEvent) -> bool {
    event_class(event) == EventClass::Sync(SYN_REPORT)
}

/// Classifies an event with `evdev::InputEvent::destructure`, applied to an
/// `evdev::InputEvent::new` of the three fields. The contract claims what
/// evdev's conversion to `EventSummary` does: it looks at the event type
/// only, type 1 gives `Key` with the code and value unchanged, type 0 gives
/// `Synchronization` with the code unchanged.
#[verifier::external_body]
pub(crate) fn classify(event: RawEvent) -> (class: EventClass)
    ensures
        class == event_class(event),
{
    match evdev::InputEvent::new(event.kind, event.code, event.value).destructure() {
        evdev::EventSummary::Key(_, key, value) => EventClass::Key(key.code(), value),
        evdev::EventSummary::Synchronization(_, code, _) => EventClass::Sync(code.0),
        _ => EventClass::Other,
    }
}

} // verus!
