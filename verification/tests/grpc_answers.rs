use cipher::api_grpc::{get_secret_request_id, get_secret_response, GrpcStrategy};
use cipher::api_services::ServiceError;
use cipher::grpc::GrpcCode;
use cipher::notificator_grpc::{
    delete_webhook_request, delete_webhook_response, list_webhooks_request, list_webhooks_response,
    register_webhook_request, register_webhook_response, WebhooksPage,
};
use cipher::notify::Webhook;
use cipher::secrets::{ActiveSlot, AwsProviderConfig, BlueGreenStrategyConfig, ProviderConfig, Secret, StrategyConfig};
use cipher::store::InfrastructureError;
use cipher::trace::TraceId;

const ID_TEXT: &str = "08b81283-979b-4ce6-94c0-81311195201d";
const ID: u128 = 0x08b81283_979b_4ce6_94c0_81311195201d;

fn when() -> chrono::NaiveDateTime {
    chrono::NaiveDate::from_ymd_opt(2026, 1, 1).unwrap().and_hms_opt(0, 0, 0).unwrap()
}

#[test]
fn get_secret_returns_invalid_argument_for_bad_uuid() {
    let s = get_secret_request_id("not-a-uuid").unwrap_err();
    assert_eq!(s.code, GrpcCode::InvalidArgument);
    assert_eq!(s.message, "invalid secret_id");
    assert_eq!(get_secret_request_id(ID_TEXT).unwrap(), ID);
}

#[test]
fn get_secret_answers() {
    let secret = Secret {
        id: ID,
        strategy: StrategyConfig::BlueGreen(BlueGreenStrategyConfig {
            blue_path: "a".to_string(),
            green_path: "b".to_string(),
            active_slot: ActiveSlot::Green,
        }),
        provider: ProviderConfig::Aws(AwsProviderConfig { role_arn: "arn".to_string() }),
        created_at: when(),
        updated_at: None,
    };
    let r = get_secret_response(Ok(secret)).unwrap();
    assert_eq!(r.secret_id, ID_TEXT);
    match r.strategy {
        Some(GrpcStrategy::BlueGreen(bg)) => assert_eq!(bg.active_slot, "green"),
        _ => panic!("expected blue/green"),
    }
    let nf = get_secret_response(Err(ServiceError::NotFound)).unwrap_err();
    assert_eq!((nf.code, nf.message.as_str()), (GrpcCode::NotFound, "secret not found"));
    let db = get_secret_response(Err(ServiceError::PersistenceError("database error".to_string()))).unwrap_err();
    assert_eq!((db.code, db.message.as_str()), (GrpcCode::Internal, "database error: database error"));
    let other = get_secret_response(Err(ServiceError::Other("boom".to_string()))).unwrap_err();
    assert_eq!(other.message, "error: other error: boom");
}

#[test]
fn register_webhook_with_invalid_uuid_returns_invalid_argument() {
    let s = register_webhook_request("not-a-uuid", "https://example.com/webhook".to_string()).unwrap_err();
    assert_eq!(s.code, GrpcCode::InvalidArgument);
}

#[test]
fn register_webhook_with_empty_url_returns_invalid_argument() {
    let s = register_webhook_request(ID_TEXT, String::new()).unwrap_err();
    assert_eq!((s.code, s.message.as_str()), (GrpcCode::InvalidArgument, "url cannot be empty"));
    let ok = register_webhook_request(ID_TEXT, "https://example.com/webhook".to_string()).unwrap();
    assert_eq!(ok.secret_id, ID);
}

fn webhook() -> Webhook {
    Webhook { id: ID, secret_id: 1, url: "https://example.com/webhook".to_string(), created_at: when() }
}

#[test]
fn register_webhook_returns_valid_uuid() {
    let text = register_webhook_response(Ok(webhook())).unwrap();
    assert_eq!(text, ID_TEXT);
    let failed = register_webhook_response(Err(InfrastructureError { message: "down".to_string() })).unwrap_err();
    assert_eq!((failed.code, failed.message.as_str()), (GrpcCode::Internal, "failed to save webhook: infrastructure error: down"));
}

#[test]
fn list_and_delete_answers() {
    assert_eq!(list_webhooks_request(ID_TEXT, 1, 2).unwrap().limit, 1);
    let r = list_webhooks_response(Ok(WebhooksPage { items: vec![webhook()], total: 4 })).unwrap();
    assert_eq!(r.total, 4);
    assert_eq!(r.webhooks[0].id, ID_TEXT);
    assert_eq!(r.webhooks[0].secret_id, "00000000-0000-0000-0000-000000000001");
    assert_eq!(delete_webhook_request("x").unwrap_err().message, "invalid webhook_id");
    assert_eq!(delete_webhook_response(Ok(true)), Ok(()));
    let nf = delete_webhook_response(Ok(false)).unwrap_err();
    assert_eq!((nf.code, nf.message.as_str()), (GrpcCode::NotFound, "webhook not found"));
}

#[test]
fn trace_ids_come_from_the_header_when_valid() {
    assert_eq!(TraceId::for_request(Some(ID_TEXT)).id, ID);
    assert_eq!(TraceId::parse(ID_TEXT).unwrap().to_text(), ID_TEXT);
    assert!(TraceId::parse("nope").is_none());
    let fresh = TraceId::for_request(Some("nope"));
    assert_ne!(fresh.id, ID);
    assert_eq!(TraceId::from(5u128).id, 5);
    assert_eq!(u128::from(TraceId { id: 6 }), 6);
}

#[test]
fn get_secret_returns_not_found_for_nonexistent_secret() {
    let error = cipher::api_services::get_secret_error(cipher::store::LookupError::NotFound);
    let status = get_secret_response(Err(error)).unwrap_err();
    assert_eq!(status.code, GrpcCode::NotFound);
}

#[test]
fn fresh_trace_ids_are_version_4_uuids() {
    let is_v4 = |id: u128| (id >> 76) & 0xf == 4 && (id >> 62) & 0x3 == 2;
    assert!(is_v4(TraceId::new().id));
    assert!(is_v4(TraceId::for_request(None).id));
    assert!(is_v4(TraceId::for_request(Some("not-a-uuid")).id));
}
