//! The message broker: publishing outcomes, and the exchanges, queues and
//! bindings a consumer sets up before it consumes.
use vstd::prelude::*;
use crate::events::{EventKind, rotation_exchange, spec_rotation_exchange};
use crate::notify::{spec_consumed_kind, spec_consumed_kinds};

verus! {

/// Why publishing an event failed.
#[derive(Debug, Clone, PartialEq, Eq)]
pub enum PublishError {
    /// The event could not be serialized; the text says why.
    Serialization(String),
    /// The broker refused or the connection failed; the text says why.
    Amqp(String),
    /// The broker did not confirm the message.
    NotConfirmed,
}

impl PublishError {
    /// The error's text.
    pub open spec fn spec_describe(self) -> Seq<char> {
        match self {
            PublishError::Serialization(m) => "serialization error: "@ + m@,
            PublishError::Amqp(m) => "amqp error: "@ + m@,
            PublishError::NotConfirmed => "publish was not confirmed by broker"@,
        }
    }

    /// The error's text.
    pub fn describe(&self) -> (res: String)
        ensures
            res@ == self.spec_describe(),
    {
        match self {
            PublishError::Serialization(m) => {
                let mut s = String::from_str("serialization error: ");
                s.append(m.as_str());
                s
            },
            PublishError::Amqp(m) => {
                let mut s = String::from_str("amqp error: ");
                s.append(m.as_str());
                s
            },
            PublishError::NotConfirmed => String::from_str("publish was not confirmed by broker"),
        }
    }
}

/// The outcome of a publication once the broker answered: success only when
/// it acknowledged the message.
pub fn publish_confirmation(acknowledged: bool) -> (res: Result<(), PublishError>)
    ensures
        acknowledged ==> res == Ok::<(), PublishError>(()),
        !acknowledged ==> res == Err::<(), PublishError>(PublishError::NotConfirmed),
{
    if !acknowledged {
        return Err(PublishError::NotConfirmed);
    }
    Ok(())
}

/// The delivery mode of published events: persistent.
pub const PERSISTENT_DELIVERY_MODE: u8 = 2;

/// The content type of published events.
pub fn event_content_type() -> (res: &'static str)
    ensures
        res@ == "application/json"@,
{
    "application/json"
}

/// How an exchange routes messages.
#[derive(Debug, Clone, Copy, PartialEq, Eq, Structural)]
pub enum ExchangeKind {
    Topic,
    Direct,
}

/// One step of a broker setup.
#[derive(Debug, Clone, PartialEq, Eq)]
pub enum AmqpOp {
    DeclareExchange { name: String, kind: ExchangeKind, durable: bool },
    /// Declare a queue, routing rejected messages to a dead-letter exchange when given.
    DeclareQueue {
        name: String,
        durable: bool,
        dead_letter_exchange: Option<String>,
        dead_letter_routing_key: Option<String>,
    },
    BindQueue { queue: String, exchange: String, routing_key: String },
    Consume { queue: String, consumer_tag: String },
}

/// The content of a setup step.
pub enum AmqpOpView {
    DeclareExchange { name: Seq<char>, kind: ExchangeKind, durable: bool },
    DeclareQueue {
        name: Seq<char>,
        durable: bool,
        dead_letter_exchange: Option<Seq<char>>,
        dead_letter_routing_key: Option<Seq<char>>,
    },
    BindQueue { queue: Seq<char>, exchange: Seq<char>, routing_key: Seq<char> },
    Consume { queue: Seq<char>, consumer_tag: Seq<char> },
}

/// The content of an optional text.
pub open spec fn spec_opt(t: Option<String>) -> Option<Seq<char>> {
    match t {
        Some(s) => Some(s@),
        None => None,
    }
}

impl View for AmqpOp {
    type V = AmqpOpView;

    open spec fn view(&self) -> AmqpOpView {
        match self {
            AmqpOp::DeclareExchange { name, kind, durable } => AmqpOpView::DeclareExchange {
                name: name@,
                kind: *kind,
                durable: *durable,
            },
            AmqpOp::DeclareQueue { name, durable, dead_letter_exchange, dead_letter_routing_key } =>
                AmqpOpView::DeclareQueue {
                name: name@,
                durable: *durable,
                dead_letter_exchange: spec_opt(*dead_letter_exchange),
                dead_letter_routing_key: spec_opt(*dead_letter_routing_key),
            },
            AmqpOp::BindQueue { queue, exchange, routing_key } => AmqpOpView::BindQueue {
                queue: queue@,
                exchange: exchange@,
                routing_key: routing_key@,
            },
            AmqpOp::Consume { queue, consumer_tag } => AmqpOpView::Consume {
                queue: queue@,
                consumer_tag: consumer_tag@,
            },
        }
    }
}

/// The contents of a list of setup steps.
pub open spec fn spec_ops(ops: Seq<AmqpOp>) -> Seq<AmqpOpView> {
    ops.map_values(|o: AmqpOp| o@)
}

/// The durable topic exchange that carries lifecycle events.
pub fn rotation_exchange_declaration() -> (res: AmqpOp)
    ensures
        res@ == (AmqpOpView::DeclareExchange {
            name: spec_rotation_exchange(),
            kind: ExchangeKind::Topic,
            durable: true,
        }),
{
    AmqpOp::DeclareExchange { name: String::from_str(rotation_exchange()), kind: ExchangeKind::Topic, durable: true }
}

/// What a consumer consumes and how.
#[derive(Debug, Clone, PartialEq, Eq)]
pub struct ConsumerConfig {
    pub queue_name: String,
    pub consumer_tag: String,
    pub exchange: String,
    pub routing_keys: Vec<String>,
    /// If set, messages that are nack-rejected are routed to this
    /// dead-letter exchange and its queue instead of being dropped.
    pub dead_letter_exchange: Option<String>,
    pub dead_letter_routing_key: Option<String>,
}

impl ConsumerConfig {
    /// The dead-letter routing key: the one configured, else the queue's name.
    pub open spec fn spec_dead_letter_key(self) -> Seq<char> {
        match self.dead_letter_routing_key {
            Some(k) => k@,
            None => self.queue_name@,
        }
    }

    /// The dead-letter queue's name: the queue's name followed by `.dlq`.
    pub open spec fn spec_dead_letter_queue(self) -> Seq<char> {
        self.queue_name@ + ".dlq"@
    }

    /// The dead-letter setup: a durable direct exchange, a durable queue bound
    /// to it under the dead-letter key; nothing without a dead-letter exchange.
    pub open spec fn spec_dead_letter_ops(self) -> Seq<AmqpOpView> {
        match self.dead_letter_exchange {
            Some(dlx) => seq![
                AmqpOpView::DeclareExchange { name: dlx@, kind: ExchangeKind::Direct, durable: true },
                AmqpOpView::DeclareQueue {
                    name: self.spec_dead_letter_queue(),
                    durable: true,
                    dead_letter_exchange: None,
                    dead_letter_routing_key: None,
                },
                AmqpOpView::BindQueue {
                    queue: self.spec_dead_letter_queue(),
                    exchange: dlx@,
                    routing_key: self.spec_dead_letter_key(),
                },
            ],
            None => Seq::empty(),
        }
    }

    /// The bindings of the queue to the exchange, one per routing key, in order.
    pub open spec fn spec_bindings(self) -> Seq<AmqpOpView> {
        self.routing_keys@.map_values(
            |k: String|
                AmqpOpView::BindQueue { queue: self.queue_name@, exchange: self.exchange@, routing_key: k@ },
        )
    }

    /// The whole setup: the dead-letter part, then the durable queue (sending
    /// rejected messages to the dead-letter exchange when there is one), its
    /// bindings, and the consumer.
    pub open spec fn spec_setup(self) -> Seq<AmqpOpView> {
        self.spec_dead_letter_ops() + seq![
            AmqpOpView::DeclareQueue {
                name: self.queue_name@,
                durable: true,
                dead_letter_exchange: spec_opt(self.dead_letter_exchange),
                dead_letter_routing_key: match self.dead_letter_exchange {
                    Some(_) => Some(self.spec_dead_letter_key()),
                    None => None,
                },
            },
        ] + self.spec_bindings() + seq![
            AmqpOpView::Consume { queue: self.queue_name@, consumer_tag: self.consumer_tag@ },
        ]
    }

    /// The steps to set the consumer up, in order.
    pub fn setup(&self) -> (res: Vec<AmqpOp>)
        ensures
            spec_ops(res@) == self.spec_setup(),
    {
        let mut ops: Vec<AmqpOp> = Vec::new();
        let mut dead_letter_routing_key: Option<String> = None;
        if let Some(dlx) = &self.dead_letter_exchange {
            ops.push(AmqpOp::DeclareExchange { name: dlx.clone(), kind: ExchangeKind::Direct, durable: true });
            let dlrk = match &self.dead_letter_routing_key {
                Some(k) => k.clone(),
                None => self.queue_name.clone(),
            };
            let mut dlq_name = self.queue_name.clone();
            dlq_name.append(".dlq");
            ops.push(
                AmqpOp::DeclareQueue {
                    name: dlq_name.clone(),
                    durable: true,
                    dead_letter_exchange: None,
                    dead_letter_routing_key: None,
                },
            );
            ops.push(AmqpOp::BindQueue { queue: dlq_name, exchange: dlx.clone(), routing_key: dlrk.clone() });
            dead_letter_routing_key = Some(dlrk);
        }
        assert(spec_ops(ops@) =~= self.spec_dead_letter_ops());
        let dead_letter_exchange = match &self.dead_letter_exchange {
            Some(x) => Some(x.clone()),
            None => None,
        };
        ops.push(
            AmqpOp::DeclareQueue {
                name: self.queue_name.clone(),
                durable: true,
                dead_letter_exchange,
                dead_letter_routing_key,
            },
        );
        let ghost head = spec_ops(ops@);
        let ghost bindings = self.spec_bindings();
        let mut i: usize = 0;
        while i < self.routing_keys.len()
            invariant
                i <= self.routing_keys@.len(),
                bindings == self.spec_bindings(),
                spec_ops(ops@) =~= head + bindings.take(i as int),
            decreases self.routing_keys@.len() - i,
        {
            let ghost before = ops@;
            ops.push(
                AmqpOp::BindQueue {
                    queue: self.queue_name.clone(),
                    exchange: self.exchange.clone(),
                    routing_key: self.routing_keys[i].clone(),
                },
            );
            assert(bindings.take(i + 1) =~= bindings.take(i as int).push(bindings[i as int]));
            assert(spec_ops(ops@) =~= spec_ops(before).push(ops@[i + head.len()]@));
            i = i + 1;
        }
        assert(bindings.take(self.routing_keys@.len() as int) =~= bindings);
        let ghost with_bindings = spec_ops(ops@);
        ops.push(AmqpOp::Consume { queue: self.queue_name.clone(), consumer_tag: self.consumer_tag.clone() });
        assert(spec_ops(ops@) =~= with_bindings.push(ops@.last()@));
        assert(spec_ops(ops@) =~= self.spec_setup());
        ops
    }
}

/// The routing keys of the events the notificator consumes.
pub open spec fn spec_notificator_keys() -> Seq<Seq<char>> {
    spec_consumed_kinds().map_values(|k: EventKind| k.spec_routing_key())
}

/// The notificator's consumer: queue `notificator.rotation.events`, tag
/// `notificator`, bound to the rotation exchange under the routing keys of
/// the events it consumes (`rotation.scheduled`, `rotation.started`,
/// `rotation.done`, `rotation.failed`), with no dead-letter exchange.
pub fn notificator_consumer_config() -> (res: ConsumerConfig)
    ensures
        res.queue_name@ == "notificator.rotation.events"@,
        res.consumer_tag@ == "notificator"@,
        res.exchange@ == spec_rotation_exchange(),
        res.routing_keys@.map_values(|k: String| k@) == spec_notificator_keys(),
        res.dead_letter_exchange is None,
        res.dead_letter_routing_key is None,
{
    let mut routing_keys: Vec<String> = Vec::new();
    routing_keys.push(String::from_str(EventKind::Scheduled.routing_key()));
    routing_keys.push(String::from_str(EventKind::Started.routing_key()));
    routing_keys.push(String::from_str(EventKind::Done.routing_key()));
    routing_keys.push(String::from_str(EventKind::Failed.routing_key()));
    assert(routing_keys@.map_values(|k: String| k@) =~= spec_notificator_keys());
    ConsumerConfig {
        queue_name: String::from_str("notificator.rotation.events"),
        consumer_tag: String::from_str("notificator"),
        exchange: String::from_str(rotation_exchange()),
        routing_keys,
        dead_letter_exchange: None,
        dead_letter_routing_key: None,
    }
}

/// Every message routed to the notificator's queue is of a kind it consumes:
/// each key it binds names a consumed event.
pub proof fn lemma_notificator_binds_only_consumed_keys(i: int)
    requires
        0 <= i < spec_notificator_keys().len(),
    ensures
        spec_consumed_kind(spec_notificator_keys()[i]) == Some(spec_consumed_kinds()[i]),
{
    crate::events::lemma_routing_keys_identify_kinds(spec_consumed_kinds()[i]);
}

} // verus!
