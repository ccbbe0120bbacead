use cipher::amqp::{notificator_consumer_config, AmqpOp, ConsumerConfig, ExchangeKind, rotation_exchange_declaration, publish_confirmation, PublishError};
use cipher::delivery::DeliveryError;
use cipher::events::{event_kind_of, EventKind, RotationDone, RotationFailed, RotationScheduled, RotationStarted};
use cipher::notify::{
    acknowledgement, consumed_kind, delivery_kind, payload_for, Acknowledgement, ConsumedEvent,
    ParseEventError, ProcessAction, ProcessError, ProcessEvent, Webhook, WebhookPayload,
};
use cipher::store::InfrastructureError;

fn make_webhook(id: u128, secret_id: u128, url: &str) -> Webhook {
    Webhook {
        id,
        secret_id,
        url: url.to_string(),
        created_at: chrono::NaiveDate::from_ymd_opt(2026, 1, 1).unwrap().and_hms_opt(0, 0, 0).unwrap(),
    }
}

/// Runs the processing of a payload against a list of webhooks (as the store
/// returns them for the secret) and a delivery result, collecting the URLs posted to.
fn run(payload: &WebhookPayload, webhooks: Vec<Webhook>, deliver: Result<(), DeliveryError>) -> (Vec<String>, Result<(), ProcessError>) {
    let (mut state, action) = ProcessEvent::start(payload);
    match action {
        ProcessAction::FetchWebhooks { secret_id } => assert_eq!(secret_id, payload.secret_id),
        _ => panic!("expected a fetch first"),
    }
    let mut calls = Vec::new();
    let mut action = state.on_webhooks(Ok(webhooks));
    loop {
        match action {
            ProcessAction::Deliver { url, .. } => {
                calls.push(url);
                action = state.on_delivered(deliver);
            }
            ProcessAction::Finish(result) => return (calls, result),
            ProcessAction::FetchWebhooks { .. } => panic!("fetched twice"),
        }
    }
}

fn payload(event_type: &str, secret_id: u128, error: Option<&str>) -> WebhookPayload {
    WebhookPayload { event_type: event_type.to_string(), secret_id, error: error.map(|e| e.to_string()) }
}

#[test]
fn delivers_to_all_matching_webhooks() {
    let secret_id = 11;
    let webhooks = vec![
        make_webhook(1, secret_id, "https://example.com/hook1"),
        make_webhook(2, secret_id, "https://example.com/hook2"),
    ];
    let (calls, result) = run(&payload("rotation.done", secret_id, None), webhooks, Ok(()));
    assert!(result.is_ok());
    assert_eq!(calls.len(), 2);
    assert_eq!(calls[0], "https://example.com/hook1");
    assert_eq!(calls[1], "https://example.com/hook2");
}

#[test]
fn no_delivery_when_no_webhooks_registered() {
    let (calls, result) = run(&payload("rotation.started", 11, None), Vec::new(), Ok(()));
    assert!(result.is_ok());
    assert!(calls.is_empty());
}

#[test]
fn delivery_failure_does_not_block_other_webhooks() {
    let secret_id = 11;
    let webhooks = vec![
        make_webhook(1, secret_id, "https://example.com/hook1"),
        make_webhook(2, secret_id, "https://example.com/hook2"),
    ];
    let (calls, result) = run(
        &payload("rotation.done", secret_id, None),
        webhooks,
        Err(DeliveryError::StatusError(500)),
    );
    assert!(result.is_ok());
    assert_eq!(calls.len(), 2, "should attempt delivery to all webhooks even if failing");
}

#[test]
fn repository_failure_ends_processing_with_an_error() {
    let p = payload("rotation.done", 11, None);
    let (mut state, _) = ProcessEvent::start(&p);
    let e = InfrastructureError { message: "down".to_string() };
    match state.on_webhooks(Err(e.clone())) {
        ProcessAction::Finish(Err(ProcessError::Repository(got))) => assert_eq!(got, e),
        _ => panic!("expected a repository error"),
    }
}

#[test]
fn payload_contains_correct_event_type_and_secret_id() {
    let p = payload_for(ConsumedEvent::Started(RotationStarted { secret_id: 5 }));
    assert_eq!(p.event_type, "rotation.started");
    assert_eq!(p.secret_id, 5);
    assert!(p.error.is_none());
    let sch = payload_for(ConsumedEvent::Scheduled(RotationScheduled { secret_id: 7 }));
    assert_eq!((sch.event_type.as_str(), sch.secret_id, sch.error.is_none()), ("rotation.scheduled", 7, true));
    let d = payload_for(ConsumedEvent::Done(RotationDone { secret_id: 6 }));
    assert_eq!(d.event_type, "rotation.done");
}

#[test]
fn failed_event_includes_error_in_payload() {
    let p = payload_for(ConsumedEvent::Failed(RotationFailed { secret_id: 5, error: "access denied".to_string() }));
    assert_eq!(p.event_type, "rotation.failed");
    assert_eq!(p.error.as_deref(), Some("access denied"));
}

#[test]
fn routing_keys_name_event_kinds() {
    assert_eq!(EventKind::Scheduled.routing_key(), "rotation.scheduled");
    assert_eq!(EventKind::Ready.routing_key(), "rotation.ready");
    assert_eq!(event_kind_of("rotation.failed"), Some(EventKind::Failed));
    assert_eq!(event_kind_of("rotation.other"), None);
    assert_eq!(consumed_kind("rotation.done"), Some(EventKind::Done));
    assert_eq!(consumed_kind("rotation.scheduled"), Some(EventKind::Scheduled));
    assert_eq!(consumed_kind("rotation.ready"), None);
}

#[test]
fn unknown_routing_key_is_rejected() {
    let r = delivery_kind("rotation.ready");
    assert_eq!(r, Err(ParseEventError::UnknownRoutingKey("rotation.ready".to_string())));
    assert_eq!(r.clone().unwrap_err().describe(), "unknown routing key: rotation.ready");
    assert_eq!(acknowledgement(&r), Acknowledgement::Reject);
    assert_eq!(acknowledgement(&delivery_kind("rotation.started")), Acknowledgement::Ack);
}

#[test]
fn notificator_queue_setup() {
    let ops = notificator_consumer_config().setup();
    let s = |x: &str| x.to_string();
    assert_eq!(
        ops,
        vec![
            AmqpOp::DeclareQueue { name: s("notificator.rotation.events"), durable: true, dead_letter_exchange: None, dead_letter_routing_key: None },
            AmqpOp::BindQueue { queue: s("notificator.rotation.events"), exchange: s("rotation"), routing_key: s("rotation.scheduled") },
            AmqpOp::BindQueue { queue: s("notificator.rotation.events"), exchange: s("rotation"), routing_key: s("rotation.started") },
            AmqpOp::BindQueue { queue: s("notificator.rotation.events"), exchange: s("rotation"), routing_key: s("rotation.done") },
            AmqpOp::BindQueue { queue: s("notificator.rotation.events"), exchange: s("rotation"), routing_key: s("rotation.failed") },
            AmqpOp::Consume { queue: s("notificator.rotation.events"), consumer_tag: s("notificator") },
        ]
    );
}

#[test]
fn dead_letter_setup_defaults_key_to_queue_name() {
    let s = |x: &str| x.to_string();
    let config = ConsumerConfig {
        queue_name: s("rotator.scheduled"),
        consumer_tag: s("rotator"),
        exchange: s("rotation"),
        routing_keys: vec![s("rotation.scheduled")],
        dead_letter_exchange: Some(s("rotation.dlx")),
        dead_letter_routing_key: None,
    };
    assert_eq!(
        config.setup(),
        vec![
            AmqpOp::DeclareExchange { name: s("rotation.dlx"), kind: ExchangeKind::Direct, durable: true },
            AmqpOp::DeclareQueue { name: s("rotator.scheduled.dlq"), durable: true, dead_letter_exchange: None, dead_letter_routing_key: None },
            AmqpOp::BindQueue { queue: s("rotator.scheduled.dlq"), exchange: s("rotation.dlx"), routing_key: s("rotator.scheduled") },
            AmqpOp::DeclareQueue { name: s("rotator.scheduled"), durable: true, dead_letter_exchange: Some(s("rotation.dlx")), dead_letter_routing_key: Some(s("rotator.scheduled")) },
            AmqpOp::BindQueue { queue: s("rotator.scheduled"), exchange: s("rotation"), routing_key: s("rotation.scheduled") },
            AmqpOp::Consume { queue: s("rotator.scheduled"), consumer_tag: s("rotator") },
        ]
    );
}

#[test]
fn rotation_exchange_and_confirmation() {
    assert_eq!(
        rotation_exchange_declaration(),
        AmqpOp::DeclareExchange { name: "rotation".to_string(), kind: ExchangeKind::Topic, durable: true }
    );
    assert_eq!(publish_confirmation(true), Ok(()));
    assert_eq!(publish_confirmation(false), Err(PublishError::NotConfirmed));
    assert_eq!(PublishError::NotConfirmed.describe(), "publish was not confirmed by broker");
}
