use cipher::api_services::{
    Timestamp,
    registered_webhook_id, rotation_outcome, webhook_deleted, webhooks_page, ActivateAction,
    ActivateBlueGreen, CreateSecret, CreateSecretAction, ListWebhooksReply, RotationDoneDetails,
    RotationOutcome, ServiceError, WebhookEntry,
};
use cipher::grpc::{GrpcCode, GrpcStatus};
use cipher::http_replies::{
    activate_reply, create_secret_input, create_secret_reply, delete_webhook_reply,
    get_secret_reply, list_secrets_reply, page_window, register_webhook_input, rotate_precheck,
    rotate_reply, PaginationParams, ReplyBody,
};
use cipher::secret_models::{
    AwsConfigRequest, ProviderRequest, RotationDetailsResponse, RotationStatus, SaveSecretRequest,
    SingleStrategyRequest, StrategyRequest,
};
use cipher::secret_rows::SecretsPage;
use cipher::secrets::{
    ActiveSlot, AwsProviderConfig, BlueGreenStrategyConfig, ProviderConfig, Secret,
    SingleStrategyConfig, StrategyConfig,
};
use cipher::store::{InfrastructureError, LookupError};
use cipher::webhook_models::RegisterWebhookRequest;

const ID_TEXT: &str = "08b81283-979b-4ce6-94c0-81311195201d";
const ID: u128 = 0x08b81283_979b_4ce6_94c0_81311195201d;

fn when() -> chrono::NaiveDateTime {
    chrono::NaiveDate::from_ymd_opt(2026, 1, 1).unwrap().and_hms_opt(0, 0, 0).unwrap()
}

fn secret(strategy: StrategyConfig) -> Secret {
    Secret {
        id: ID,
        strategy,
        provider: ProviderConfig::Aws(AwsProviderConfig { role_arn: "arn:aws:iam::123456789012:role/TestRotator".to_string() }),
        created_at: when(),
        updated_at: None,
    }
}

fn status(code: GrpcCode) -> GrpcStatus {
    GrpcStatus { code, message: "x".to_string() }
}

fn error_message(body: &ReplyBody) -> &str {
    match body {
        ReplyBody::Error(e) => &e.message,
        _ => panic!("expected an error body"),
    }
}

#[test]
fn list_limit_defaults_to_20_and_is_clamped_to_1_100() {
    assert_eq!(page_window(PaginationParams { limit: None, offset: None }), (20, 0));
    assert_eq!(page_window(PaginationParams { limit: Some(999), offset: Some(5) }), (100, 5));
    assert_eq!(page_window(PaginationParams { limit: Some(0), offset: None }), (1, 0));
    assert_eq!(page_window(PaginationParams { limit: Some(1), offset: Some(1) }), (1, 1));
}

#[test]
fn create_secret_rolls_back_on_scheduler_failure() {
    let (mut flow, action) = CreateSecret::start(
        "0 30 9 * * * *".to_string(),
        ProviderConfig::Aws(AwsProviderConfig { role_arn: "arn".to_string() }),
        StrategyConfig::Single(SingleStrategyConfig { path: "p".to_string() }),
    );
    assert!(matches!(action, CreateSecretAction::Save(_)));
    match flow.on_saved(Ok(secret(StrategyConfig::Single(SingleStrategyConfig { path: "p".to_string() })))) {
        CreateSecretAction::Schedule { secret_id, cron_expression } => {
            assert_eq!(secret_id, ID);
            assert_eq!(cron_expression, "0 30 9 * * * *");
        }
        _ => panic!("expected scheduling"),
    }
    match flow.on_scheduled(Err(status(GrpcCode::Internal))) {
        CreateSecretAction::Delete(req) => assert_eq!(req.id, ID),
        _ => panic!("expected a rollback"),
    }
    match flow.on_deleted(Ok(())) {
        CreateSecretAction::Finish(Err(ServiceError::Other(m))) => assert_eq!(m, "failed to schedule secret rotation"),
        _ => panic!("expected a failure"),
    }
}

#[test]
fn create_secret_succeeds_when_scheduled() {
    let (mut flow, _) = CreateSecret::start(
        "0 0 * * * * *".to_string(),
        ProviderConfig::Aws(AwsProviderConfig { role_arn: "arn".to_string() }),
        StrategyConfig::Single(SingleStrategyConfig { path: "p".to_string() }),
    );
    flow.on_saved(Ok(secret(StrategyConfig::Single(SingleStrategyConfig { path: "p".to_string() }))));
    assert!(matches!(flow.on_scheduled(Ok(())), CreateSecretAction::Finish(Ok(id)) if id == ID));
}

#[test]
fn create_secret_save_failure_is_a_persistence_error() {
    let (mut flow, _) = CreateSecret::start(
        "0 0 * * * * *".to_string(),
        ProviderConfig::Aws(AwsProviderConfig { role_arn: "arn".to_string() }),
        StrategyConfig::Single(SingleStrategyConfig { path: "p".to_string() }),
    );
    match flow.on_saved(Err(InfrastructureError { message: "down".to_string() })) {
        CreateSecretAction::Finish(Err(ServiceError::PersistenceError(m))) => assert_eq!(m, "failed to save secret"),
        _ => panic!("expected a persistence error"),
    }
}

#[test]
fn activation_announces_the_outdated_path() {
    let (mut flow, _) = ActivateBlueGreen::start(ID);
    let bg = BlueGreenStrategyConfig {
        blue_path: "prod/blue".to_string(),
        green_path: "prod/green".to_string(),
        active_slot: ActiveSlot::Blue,
    };
    assert!(matches!(flow.on_secret(Ok(secret(StrategyConfig::BlueGreen(bg)))), ActivateAction::FlipActiveSlot { id } if id == ID));
    match flow.on_flipped(Ok(ActiveSlot::Green)) {
        ActivateAction::PublishDone { secret_id, details: RotationDoneDetails::BlueGreen { active_slot, outdated_path } } => {
            assert_eq!(secret_id, ID);
            assert_eq!(active_slot, "green");
            assert_eq!(outdated_path, "prod/blue");
        }
        _ => panic!("expected a publication"),
    }
    assert!(matches!(flow.on_published(Err::<(), ()>(())), ActivateAction::Finish(Ok(ActiveSlot::Green))));
}

#[test]
fn activation_refuses_single_path_secrets() {
    let (mut flow, _) = ActivateBlueGreen::start(ID);
    match flow.on_secret(Ok(secret(StrategyConfig::Single(SingleStrategyConfig { path: "p".to_string() })))) {
        ActivateAction::Finish(Err(ServiceError::InvalidOperation(m))) => {
            assert_eq!(m, "activate is only valid for blue_green strategy")
        }
        _ => panic!("expected an invalid operation"),
    }
    let (mut flow, _) = ActivateBlueGreen::start(ID);
    assert!(matches!(flow.on_secret(Err(LookupError::NotFound)), ActivateAction::Finish(Err(ServiceError::NotFound))));
}

#[test]
fn rotator_answers_map_to_outcomes() {
    let single = RotationOutcome::Single { path: "p".to_string() };
    assert_eq!(rotation_outcome(Ok(Some(single.clone()))), Ok(single));
    assert_eq!(rotation_outcome(Ok(None)), Err(ServiceError::Other("rotator returned empty result".to_string())));
    assert_eq!(rotation_outcome(Err(status(GrpcCode::NotFound))), Err(ServiceError::NotFound));
    assert_eq!(rotation_outcome(Err(status(GrpcCode::Unavailable))), Err(ServiceError::Other("rotation failed".to_string())));
}

#[test]
fn notificator_answers_map_to_results() {
    assert_eq!(registered_webhook_id(Ok(ID_TEXT.to_string())), Ok(ID));
    assert_eq!(
        registered_webhook_id(Ok("not-a-uuid".to_string())),
        Err(ServiceError::Other("invalid webhook_id from notificator".to_string()))
    );
    assert_eq!(registered_webhook_id(Err(status(GrpcCode::Internal))), Err(ServiceError::Other("failed to register webhook".to_string())));
    assert_eq!(webhook_deleted(Ok(())), Ok(()));
    assert_eq!(webhook_deleted(Err(status(GrpcCode::NotFound))), Err(ServiceError::NotFound));
}

fn entry(id: &str, created_at: &str) -> WebhookEntry {
    WebhookEntry { id: id.to_string(), secret_id: ID_TEXT.to_string(), url: "https://example.com/hook1".to_string(), created_at: created_at.to_string() }
}

#[test]
fn webhook_listing_is_read() {
    let page = webhooks_page(Ok(ListWebhooksReply { webhooks: vec![entry(ID_TEXT, "2026-01-01 00:00:00")], total: 3 })).unwrap();
    assert_eq!(page.total, 3);
    assert_eq!(page.items.len(), 1);
    assert_eq!(page.items[0].id, ID);
    assert_eq!(page.items[0].url, "https://example.com/hook1");
    assert_eq!(page.items[0].created_at, Timestamp { secs: when().and_utc().timestamp(), nanos: 0 });
    assert_eq!(page.items[0].created_at, Timestamp { secs: 1_767_225_600, nanos: 0 });
    let fine = webhooks_page(Ok(ListWebhooksReply {
        webhooks: vec![entry(ID_TEXT, "2026-01-01 00:00:00"), entry(ID_TEXT, "2026-01-01 00:00:01.5")],
        total: 2,
    }))
    .unwrap();
    assert_eq!(fine.items[1].created_at, Timestamp { secs: 1_767_225_601, nanos: 500_000_000 });
    assert_eq!(
        webhooks_page(Ok(ListWebhooksReply { webhooks: vec![entry("bad", "2026-01-01 00:00:00")], total: 1 })).unwrap_err(),
        ServiceError::Other("invalid webhook id from notificator".to_string())
    );
    assert_eq!(
        webhooks_page(Ok(ListWebhooksReply { webhooks: vec![entry(ID_TEXT, "yesterday")], total: 1 })).unwrap_err(),
        ServiceError::Other("invalid created_at from notificator".to_string())
    );
}

#[test]
fn create_secret_with_invalid_cron_returns_400() {
    let body = SaveSecretRequest {
        cron_expression: "not-a-cron".to_string(),
        strategy: StrategyRequest::Single(SingleStrategyRequest { path: "some/valid/path".to_string() }),
        provider: ProviderRequest::Aws(AwsConfigRequest { role_arn: "arn:aws:iam::123456789012:role/TestRotator".to_string() }),
    };
    let reply = create_secret_input(body).unwrap_err();
    assert_eq!(reply.status, 400);
    let message = error_message(&reply.body);
    assert!(message.contains("cron"), "error message should contain 'cron', got: {message}");
}

#[test]
fn valid_create_request_becomes_blue_green_with_blue_active() {
    let body = SaveSecretRequest {
        cron_expression: "0 0 * * * * *".to_string(),
        strategy: StrategyRequest::BlueGreen(cipher::secret_models::BlueGreenStrategyRequest {
            blue_path: "a".to_string(),
            green_path: "b".to_string(),
        }),
        provider: ProviderRequest::Aws(AwsConfigRequest { role_arn: "arn:aws:iam::123456789012:role/TestRotator".to_string() }),
    };
    let (cron, _, strategy) = create_secret_input(body).unwrap();
    assert_eq!(cron, "0 0 * * * * *");
    assert_eq!(
        strategy,
        StrategyConfig::BlueGreen(BlueGreenStrategyConfig { blue_path: "a".to_string(), green_path: "b".to_string(), active_slot: ActiveSlot::Blue })
    );
}

#[test]
fn replies_carry_statuses() {
    assert_eq!(create_secret_reply(Ok(ID)).status, 201);
    let failed = create_secret_reply(Err(ServiceError::Other("x".to_string())));
    assert_eq!(failed.status, 500);
    assert_eq!(error_message(&failed.body), "Internal server error");
    let missing = get_secret_reply(Err(ServiceError::NotFound));
    assert_eq!(missing.status, 404);
    assert_eq!(error_message(&missing.body), "Secret not found");
    assert_eq!(get_secret_reply(Ok(secret(StrategyConfig::Single(SingleStrategyConfig { path: "p".to_string() })))).status, 200);
    let invalid = activate_reply(Err(ServiceError::InvalidOperation("nope".to_string())));
    assert_eq!(invalid.status, 400);
    assert_eq!(error_message(&invalid.body), "nope");
    match activate_reply(Ok(ActiveSlot::Green)).body {
        ReplyBody::Activated(r) => assert_eq!(r.active_slot, "green"),
        _ => panic!("expected activation"),
    }
    assert_eq!(delete_webhook_reply(Ok(())).status, 204);
    let gone = delete_webhook_reply(Err(ServiceError::NotFound));
    assert_eq!(gone.status, 404);
    assert_eq!(error_message(&gone.body), "Webhook not found");
}

#[test]
fn rotation_replies() {
    assert_eq!(rotate_precheck(&Err(ServiceError::NotFound)).unwrap().status, 404);
    assert!(rotate_precheck(&Err(ServiceError::PersistenceError("x".to_string()))).is_none());
    match rotate_reply(Ok(RotationOutcome::BlueGreen {
        active_slot: "blue".to_string(),
        active_path: "a".to_string(),
        ready_slot: "green".to_string(),
        ready_path: "b".to_string(),
    }))
    .body
    {
        ReplyBody::Rotated(r) => {
            assert_eq!(r.status, RotationStatus::Ready);
            assert!(matches!(r.details, RotationDetailsResponse::BlueGreen(_)));
        }
        _ => panic!("expected a rotation"),
    }
    let failed = rotate_reply(Err(ServiceError::Other("x".to_string())));
    assert_eq!(failed.status, 500);
    assert_eq!(error_message(&failed.body), "Rotation failed");
}

#[test]
fn list_secrets_reply_reports_total_and_items() {
    let page = SecretsPage { items: vec![secret(StrategyConfig::Single(SingleStrategyConfig { path: "p".to_string() }))], total: 5 };
    match list_secrets_reply(Ok(page)).body {
        ReplyBody::Secrets { items, total } => {
            assert_eq!(total, 5);
            assert_eq!(items.len(), 1);
            assert_eq!(items[0].id, ID);
        }
        _ => panic!("expected secrets"),
    }
}

#[test]
fn register_webhook_with_invalid_url_returns_400() {
    let reply = register_webhook_input(RegisterWebhookRequest { url: "not-a-url".to_string() }).unwrap_err();
    assert_eq!(reply.status, 400);
    assert_eq!(error_message(&reply.body), "Invalid value for 'url'");
}

#[test]
fn register_webhook_with_empty_url_returns_400() {
    let reply = register_webhook_input(RegisterWebhookRequest { url: "".to_string() }).unwrap_err();
    assert_eq!(reply.status, 400);
    assert_eq!(error_message(&reply.body), "Invalid value for 'url', Invalid value for 'url'");
}

#[test]
fn valid_webhook_url_is_accepted() {
    assert_eq!(
        register_webhook_input(RegisterWebhookRequest { url: "https://example.com/webhook".to_string() }).unwrap(),
        "https://example.com/webhook"
    );
}

#[test]
fn list_secrets_clamps_limit_to_100() {
    let (limit, offset) = page_window(PaginationParams { limit: Some(999), offset: None });
    assert!(limit <= 100);
    assert_eq!((limit, offset), (100, 0));
}

#[test]
fn get_secret_by_id_returns_404_for_unknown_id() {
    let error = cipher::api_services::get_secret_error(LookupError::NotFound);
    let reply = get_secret_reply(Err(error));
    assert_eq!(reply.status, 404);
    assert_eq!(error_message(&reply.body), "Secret not found");
}

#[test]
fn delete_webhook_returns_204() {
    let reply = delete_webhook_reply(webhook_deleted(Ok(())));
    assert_eq!(reply.status, 204);
    assert!(matches!(reply.body, ReplyBody::Empty));
}

#[test]
fn delete_webhook_not_found_returns_404() {
    let reply = delete_webhook_reply(webhook_deleted(Err(status(GrpcCode::NotFound))));
    assert_eq!(reply.status, 404);
    assert_eq!(error_message(&reply.body), "Webhook not found");
}
