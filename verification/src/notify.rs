//! The notificator's handling of one lifecycle event: which events it takes,
//! the payload it posts, and the order of its deliveries.
use vstd::prelude::*;
use crate::delivery::DeliveryError;
use crate::events::{
    EventKind, RotationDone, RotationFailed, RotationScheduled, RotationStarted, spec_event_kind_of, event_kind_of,
};
use crate::store::GetWebhooksError;

verus! {

/// The body posted to a webhook.
#[derive(Debug, Clone, PartialEq, Eq)]
pub struct WebhookPayload {
    /// The routing key of the event, such as `"rotation.done"`.
    pub event_type: String,
    pub secret_id: u128,
    /// The failure's text, for `rotation.failed` only.
    pub error: Option<String>,
}

/// A webhook registered for a secret.
#[derive(Debug)]
pub struct Webhook {
    pub id: u128,
    pub secret_id: u128,
    pub url: String,
    pub created_at: chrono::NaiveDateTime,
}

/// An event that the notificator consumes.
#[derive(Debug, Clone, PartialEq, Eq)]
pub enum ConsumedEvent {
    Scheduled(RotationScheduled),
    Started(RotationStarted),
    Done(RotationDone),
    Failed(RotationFailed),
}

/// Why an event could not be processed.
#[derive(Debug, Clone, PartialEq, Eq)]
pub enum ProcessError {
    /// The webhooks of the secret could not be read.
    Repository(GetWebhooksError),
}

/// The kinds of event the notificator consumes: every step of a rotation,
/// from its scheduling to its end.
pub open spec fn spec_is_consumed(kind: EventKind) -> bool {
    kind == EventKind::Scheduled || kind == EventKind::Started || kind == EventKind::Done
        || kind == EventKind::Failed
}

/// The routing keys the notificator's queue is bound to, in order.
pub open spec fn spec_consumed_kinds() -> Seq<EventKind> {
    seq![EventKind::Scheduled, EventKind::Started, EventKind::Done, EventKind::Failed]
}

/// The kind of a consumed event named by a routing key; `None` for any other
/// key, which the consumer rejects.
pub open spec fn spec_consumed_kind(routing_key: Seq<char>) -> Option<EventKind> {
    match spec_event_kind_of(routing_key) {
        Some(kind) => if spec_is_consumed(kind) {
            Some(kind)
        } else {
            None
        },
        None => None,
    }
}

/// The kind of a consumed event named by a routing key; `None` for any other key.
pub fn consumed_kind(routing_key: &str) -> (res: Option<EventKind>)
    ensures
        res == spec_consumed_kind(routing_key@),
{
    match event_kind_of(routing_key) {
        Some(kind) => match kind {
            EventKind::Scheduled | EventKind::Started | EventKind::Done | EventKind::Failed => Some(kind),
            _ => None,
        },
        None => None,
    }
}

impl ConsumedEvent {
    /// The kind of the event.
    pub open spec fn spec_kind(&self) -> EventKind {
        match self {
            ConsumedEvent::Scheduled(_) => EventKind::Scheduled,
            ConsumedEvent::Started(_) => EventKind::Started,
            ConsumedEvent::Done(_) => EventKind::Done,
            ConsumedEvent::Failed(_) => EventKind::Failed,
        }
    }

    /// The secret the event is about.
    pub open spec fn spec_secret_id(&self) -> u128 {
        match self {
            ConsumedEvent::Scheduled(e) => e.secret_id,
            ConsumedEvent::Started(e) => e.secret_id,
            ConsumedEvent::Done(e) => e.secret_id,
            ConsumedEvent::Failed(e) => e.secret_id,
        }
    }
}

/// The payload posted for an event: its routing key as the event type, its
/// secret, and the failure's text for a failed rotation.
pub fn payload_for(event: ConsumedEvent) -> (res: WebhookPayload)
    ensures
        res.event_type@ == event.spec_kind().spec_routing_key(),
        res.secret_id == event.spec_secret_id(),
        match event {
            ConsumedEvent::Failed(f) => res.error == Some(f.error),
            _ => res.error is None,
        },
{
    match event {
        ConsumedEvent::Scheduled(e) => WebhookPayload {
            event_type: String::from_str(EventKind::Scheduled.routing_key()),
            secret_id: e.secret_id,
            error: None,
        },
        ConsumedEvent::Started(e) => WebhookPayload {
            event_type: String::from_str(EventKind::Started.routing_key()),
            secret_id: e.secret_id,
            error: None,
        },
        ConsumedEvent::Done(e) => WebhookPayload {
            event_type: String::from_str(EventKind::Done.routing_key()),
            secret_id: e.secret_id,
            error: None,
        },
        ConsumedEvent::Failed(e) => WebhookPayload {
            event_type: String::from_str(EventKind::Failed.routing_key()),
            secret_id: e.secret_id,
            error: Some(e.error),
        },
    }
}

/// Why a delivery from the queue could not be read as an event.
#[derive(Debug, Clone, PartialEq, Eq)]
pub enum ParseEventError {
    /// The routing key names no consumed event.
    UnknownRoutingKey(String),
    /// The body is not the event's JSON; the text says why.
    Malformed(String),
}

impl ParseEventError {
    /// The error's text.
    pub open spec fn spec_describe(self) -> Seq<char> {
        match self {
            ParseEventError::UnknownRoutingKey(k) => "unknown routing key: "@ + k@,
            ParseEventError::Malformed(m) => m@,
        }
    }

    /// The error's text, such as `unknown routing key: rotation.ready`.
    pub fn describe(&self) -> (res: String)
        ensures
            res@ == self.spec_describe(),
    {
        match self {
            ParseEventError::UnknownRoutingKey(k) => {
                let mut s = String::from_str("unknown routing key: ");
                s.append(k.as_str());
                s
            },
            ParseEventError::Malformed(m) => m.clone(),
        }
    }
}

/// The kind of event a delivery carries, from its routing key: one of the
/// consumed kinds, or an error naming the key.
pub fn delivery_kind(routing_key: &str) -> (res: Result<EventKind, ParseEventError>)
    ensures
        match spec_consumed_kind(routing_key@) {
            Some(kind) => res == Ok::<EventKind, ParseEventError>(kind),
            None => res matches Err(ParseEventError::UnknownRoutingKey(k)) && k@ == routing_key@,
        },
{
    match consumed_kind(routing_key) {
        Some(kind) => Ok(kind),
        None => Err(ParseEventError::UnknownRoutingKey(String::from_str(routing_key))),
    }
}

/// What the consumer answers the broker for a delivery.
#[derive(Debug, Clone, Copy, PartialEq, Eq, Structural)]
pub enum Acknowledgement {
    /// The delivery is done with.
    Ack,
    /// The delivery is refused and not requeued.
    Reject,
}

/// The answer for a delivery: one that could not be read as an event is
/// refused; one that was read is acknowledged once processed, whether or not
/// processing succeeded (failures are logged, not retried).
pub fn acknowledgement<T>(parsed: &Result<T, ParseEventError>) -> (res: Acknowledgement)
    ensures
        parsed is Ok ==> res == Acknowledgement::Ack,
        parsed is Err ==> res == Acknowledgement::Reject,
{
    match parsed {
        Ok(_) => Acknowledgement::Ack,
        Err(_) => Acknowledgement::Reject,
    }
}

/// What the caller does next while processing one event.
#[derive(Debug)]
pub enum ProcessAction {
    /// Read the webhooks registered for this secret.
    FetchWebhooks { secret_id: u128 },
    /// Post the payload to this webhook.
    Deliver { webhook_id: u128, url: String },
    /// Processing is over with this result.
    Finish(Result<(), ProcessError>),
}

/// The processing of one event: the webhooks read, and the position of the
/// delivery awaited.
pub struct ProcessEvent {
    secret_id: u128,
    webhooks: Vec<Webhook>,
    next: usize,
}

impl ProcessEvent {
    /// The secret whose webhooks are notified.
    pub closed spec fn secret_id(self) -> u128 {
        self.secret_id
    }

    /// The webhooks read for the secret (empty before they are read).
    pub closed spec fn webhooks(self) -> Seq<Webhook> {
        self.webhooks@
    }

    /// The position of the delivery awaited.
    pub closed spec fn next(self) -> nat {
        self.next as nat
    }

    /// Starts processing a payload: its secret's webhooks are read first.
    pub fn start(payload: &WebhookPayload) -> (res: (ProcessEvent, ProcessAction))
        ensures
            res.0.secret_id() == payload.secret_id,
            res.0.webhooks().len() == 0,
            res.1 matches ProcessAction::FetchWebhooks { secret_id } && secret_id == payload.secret_id,
    {
        let state = ProcessEvent { secret_id: payload.secret_id, webhooks: Vec::new(), next: 0 };
        (state, ProcessAction::FetchWebhooks { secret_id: payload.secret_id })
    }

    /// Takes the webhooks read: a read failure ends processing with a
    /// repository error; no webhooks ends it successfully; otherwise the first
    /// webhook is delivered to.
    pub fn on_webhooks(&mut self, fetched: Result<Vec<Webhook>, GetWebhooksError>) -> (res: ProcessAction)
        ensures
            final(self).secret_id() == old(self).secret_id(),
            match fetched {
                Err(e) => res == ProcessAction::Finish(Err(ProcessError::Repository(e))),
                Ok(ws) => {
                    &&& final(self).webhooks() == ws@
                    &&& final(self).next() == 0
                    &&& if ws@.len() == 0 {
                        res == ProcessAction::Finish(Ok(()))
                    } else {
                        res matches ProcessAction::Deliver { webhook_id, url }
                            && webhook_id == ws@[0].id && url@ == ws@[0].url@
                    }
                },
            },
    {
        match fetched {
            Err(e) => ProcessAction::Finish(Err(ProcessError::Repository(e))),
            Ok(ws) => {
                self.webhooks = ws;
                self.next = 0;
                if self.webhooks.len() == 0 {
                    ProcessAction::Finish(Ok(()))
                } else {
                    ProcessAction::Deliver {
                        webhook_id: self.webhooks[0].id,
                        url: self.webhooks[0].url.clone(),
                    }
                }
            },
        }
    }

    /// Takes the outcome of the awaited delivery, whatever it is: the next
    /// webhook is delivered to, and after the last one processing ends
    /// successfully. A failed delivery does not stop the others.
    pub fn on_delivered(&mut self, outcome: Result<(), DeliveryError>) -> (res: ProcessAction)
        requires
            old(self).next() < old(self).webhooks().len(),
        ensures
            final(self).secret_id() == old(self).secret_id(),
            final(self).webhooks() == old(self).webhooks(),
            spec_after_delivery(old(self).webhooks(), old(self).next(), final(self).next(), res),
    {
        assert(self.next < self.webhooks.len());
        let n: usize = self.next + 1;
        if n < self.webhooks.len() {
            self.next = n;
            ProcessAction::Deliver { webhook_id: self.webhooks[n].id, url: self.webhooks[n].url.clone() }
        } else {
            ProcessAction::Finish(Ok(()))
        }
    }
}

/// After the delivery at position `next` of `webhooks`: the one at `next + 1`
/// is delivered to, or, after the last, processing ends successfully.
pub open spec fn spec_after_delivery(webhooks: Seq<Webhook>, next: nat, new_next: nat, action: ProcessAction) -> bool {
    if next + 1 < webhooks.len() {
        &&& new_next == next + 1
        &&& action matches ProcessAction::Deliver { webhook_id, url }
            && webhook_id == webhooks[next + 1int].id && url@ == webhooks[next + 1int].url@
    } else {
        action == ProcessAction::Finish(Ok(()))
    }
}

} // verus!
