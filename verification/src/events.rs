//! Rotation lifecycle events and the routing keys they travel under.
use vstd::prelude::*;
use crate::text::text_eq;

verus! {

/// A rotation was scheduled for the secret.
#[derive(Debug, Clone, Copy, PartialEq, Eq)]
pub struct RotationScheduled {
    pub secret_id: u128,
}

/// The rotator began rotating the secret.
#[derive(Debug, Clone, Copy, PartialEq, Eq)]
pub struct RotationStarted {
    pub secret_id: u128,
}

/// The rotation of the secret completed.
#[derive(Debug, Clone, Copy, PartialEq, Eq)]
pub struct RotationDone {
    pub secret_id: u128,
}

/// The rotation of the secret failed.
#[derive(Debug, Clone, PartialEq, Eq)]
pub struct RotationFailed {
    pub secret_id: u128,
    pub error: String,
}

/// A blue/green rotation wrote the inactive slot, which waits for activation.
#[derive(Debug, Clone, PartialEq, Eq)]
pub struct RotationReady {
    pub secret_id: u128,
    pub active_slot: String,
    pub active_path: String,
    pub ready_slot: String,
    pub ready_path: String,
}

/// The kinds of lifecycle event published on the `rotation` exchange.
#[derive(Debug, Clone, Copy, PartialEq, Eq, Structural)]
pub enum EventKind {
    Scheduled,
    Started,
    Done,
    Ready,
    Failed,
}

/// The name of the exchange that carries lifecycle events.
pub open spec fn spec_rotation_exchange() -> Seq<char> {
    seq!['r', 'o', 't', 'a', 't', 'i', 'o', 'n']
}

/// The name of the exchange that carries lifecycle events: `"rotation"`.
pub fn rotation_exchange() -> (res: &'static str)
    ensures
        res@ == spec_rotation_exchange(),
{
    proof { reveal_strlit("rotation"); }
    "rotation"
}

impl EventKind {
    /// `"rotation."` followed by the event's name.
    pub open spec fn spec_routing_key(self) -> Seq<char> {
        spec_rotation_exchange().push('.') + match self {
            EventKind::Scheduled => seq!['s', 'c', 'h', 'e', 'd', 'u', 'l', 'e', 'd'],
            EventKind::Started => seq!['s', 't', 'a', 'r', 't', 'e', 'd'],
            EventKind::Done => seq!['d', 'o', 'n', 'e'],
            EventKind::Ready => seq!['r', 'e', 'a', 'd', 'y'],
            EventKind::Failed => seq!['f', 'a', 'i', 'l', 'e', 'd'],
        }
    }

    /// The routing key of this kind of event, such as `"rotation.done"`.
    pub fn routing_key(&self) -> (res: &'static str)
        ensures
            res@ == self.spec_routing_key(),
    {
        match self {
            EventKind::Scheduled => {
                proof { reveal_strlit("rotation.scheduled"); }
                "rotation.scheduled"
            },
            EventKind::Started => {
                proof { reveal_strlit("rotation.started"); }
                "rotation.started"
            },
            EventKind::Done => {
                proof { reveal_strlit("rotation.done"); }
                "rotation.done"
            },
            EventKind::Ready => {
                proof { reveal_strlit("rotation.ready"); }
                "rotation.ready"
            },
            EventKind::Failed => {
                proof { reveal_strlit("rotation.failed"); }
                "rotation.failed"
            },
        }
    }
}

/// The kind of event that a routing key names, if it names one.
pub open spec fn spec_event_kind_of(routing_key: Seq<char>) -> Option<EventKind> {
    if routing_key == EventKind::Scheduled.spec_routing_key() {
        Some(EventKind::Scheduled)
    } else if routing_key == EventKind::Started.spec_routing_key() {
        Some(EventKind::Started)
    } else if routing_key == EventKind::Done.spec_routing_key() {
        Some(EventKind::Done)
    } else if routing_key == EventKind::Ready.spec_routing_key() {
        Some(EventKind::Ready)
    } else if routing_key == EventKind::Failed.spec_routing_key() {
        Some(EventKind::Failed)
    } else {
        None
    }
}

/// The kind of event that a routing key names, if it names one.
pub fn event_kind_of(routing_key: &str) -> (res: Option<EventKind>)
    ensures
        res == spec_event_kind_of(routing_key@),
{
    if text_eq(routing_key, EventKind::Scheduled.routing_key()) {
        Some(EventKind::Scheduled)
    } else if text_eq(routing_key, EventKind::Started.routing_key()) {
        Some(EventKind::Started)
    } else if text_eq(routing_key, EventKind::Done.routing_key()) {
        Some(EventKind::Done)
    } else if text_eq(routing_key, EventKind::Ready.routing_key()) {
        Some(EventKind::Ready)
    } else if text_eq(routing_key, EventKind::Failed.routing_key()) {
        Some(EventKind::Failed)
    } else {
        None
    }
}

/// Each kind of event is found again from its routing key: no two kinds share one.
pub proof fn lemma_routing_keys_identify_kinds(kind: EventKind)
    ensures
        spec_event_kind_of(kind.spec_routing_key()) == Some(kind),
{
    let s = EventKind::Scheduled.spec_routing_key();
    let t = EventKind::Started.spec_routing_key();
    let d = EventKind::Done.spec_routing_key();
    let r = EventKind::Ready.spec_routing_key();
    let f = EventKind::Failed.spec_routing_key();
    assert(s[9] == 's' && s[10] == 'c');
    assert(t[9] == 's' && t[10] == 't');
    assert(d[9] == 'd');
    assert(r[9] == 'r');
    assert(f[9] == 'f');
}

} // verus!
