//! The answers of the API's HTTP endpoints: status codes and bodies decided
//! from the validated request and the use case's result.
use vstd::prelude::*;
use crate::api_services::{RotationOutcome, ServiceError, ServiceResult, WebhooksPage};
use crate::secret_models::{
    ActivateBlueGreenResponse, BlueGreenRotationResponse, RotateSecretResponse, RotationDetailsResponse,
    RotationStatus, SaveSecretRequest, SaveSecretResponse, SecretResponse, SingleRotationResponse,
    spec_provider_reply, spec_strategy_reply,
};
use crate::secret_rows::SecretsPage;
use crate::secrets::{ActiveSlot, ProviderConfig, Secret, StrategyConfig};
use crate::validation::{ErrorResponse, spec_response_message};
use crate::webhook_models::{RegisterWebhookRequest, RegisterWebhookResponse, WebhookResponse};

verus! {

/// The limit and offset asked for in a listing, both optional.
#[derive(Debug, Clone, Copy, PartialEq, Eq)]
pub struct PaginationParams {
    pub limit: Option<u64>,
    pub offset: Option<u64>,
}

/// The default page size.
pub const DEFAULT_PAGE_SIZE: u64 = 20;

/// The largest page size.
pub const MAX_PAGE_SIZE: u64 = 100;

/// The limit used: the one asked for (20 when absent), kept within 1..=100.
pub open spec fn spec_page_limit(params: PaginationParams) -> u64 {
    let asked = match params.limit {
        Some(l) => l,
        None => DEFAULT_PAGE_SIZE,
    };
    if asked < 1 {
        1
    } else if asked > MAX_PAGE_SIZE {
        MAX_PAGE_SIZE
    } else {
        asked
    }
}

/// The limit and offset passed to the store: the limit kept within 1..=100,
/// the offset as asked (0 when absent), both as the store's signed integers.
pub fn page_window(params: PaginationParams) -> (res: (i64, i64))
    ensures
        res.0 == spec_page_limit(params) as i64,
        1 <= res.0 <= 100,
        res.1 == (match params.offset {
            Some(o) => o,
            None => 0,
        }) as i64,
{
    let asked = match params.limit {
        Some(l) => l,
        None => DEFAULT_PAGE_SIZE,
    };
    let limit = if asked < 1 {
        1
    } else if asked > MAX_PAGE_SIZE {
        MAX_PAGE_SIZE
    } else {
        asked
    };
    let offset = match params.offset {
        Some(o) => o,
        None => 0,
    };
    (limit as i64, offset as i64)
}

/// The page size used: a limit asked for within 1..=100 is used as asked, a
/// larger one gives 100, 0 gives 1, and none gives 20.
pub proof fn lemma_page_limit(params: PaginationParams)
    ensures
        params.limit matches Some(l) ==> (1 <= l <= 100 ==> spec_page_limit(params) == l),
        params.limit matches Some(l) ==> (l > 100 ==> spec_page_limit(params) == 100),
        params.limit == Some(0u64) ==> spec_page_limit(params) == 1,
        params.limit is None ==> spec_page_limit(params) == 20,
        1 <= spec_page_limit(params) <= 100,
{
}

/// The body of an answer.
#[derive(Debug)]
pub enum ReplyBody {
    Error(ErrorResponse),
    SecretCreated(SaveSecretResponse),
    Secrets { items: Vec<SecretResponse>, total: u64 },
    Secret(SecretResponse),
    Activated(ActivateBlueGreenResponse),
    Rotated(RotateSecretResponse),
    WebhookRegistered(RegisterWebhookResponse),
    Webhooks { items: Vec<WebhookResponse>, total: u64 },
    Empty,
}

/// An answer: an HTTP status and a body.
#[derive(Debug)]
pub struct HttpReply {
    pub status: u16,
    pub body: ReplyBody,
}

/// An error answer with this status and message.
pub open spec fn spec_error_reply(reply: HttpReply, status: u16, message: Seq<char>) -> bool {
    reply.status == status && (reply.body matches ReplyBody::Error(e) && e.message@ == message)
}

/// The answer to an unexpected failure: 500 with a fixed message.
pub open spec fn spec_internal_error(reply: HttpReply) -> bool {
    spec_error_reply(reply, 500, "Internal server error"@)
}

fn error_reply(status: u16, message: &str) -> (res: HttpReply)
    ensures
        spec_error_reply(res, status, message@),
{
    HttpReply { status, body: ReplyBody::Error(ErrorResponse { message: String::from_str(message) }) }
}

/// The create request, if valid, as the use case takes it (the schedule, the
/// provider and the strategy); otherwise the 400 answer with the message of
/// its errors.
pub fn create_secret_input(body: SaveSecretRequest) -> (res: Result<(String, ProviderConfig, StrategyConfig), HttpReply>)
    ensures
        match res {
            Ok((cron, provider, strategy)) => {
                &&& body.spec_errors().len() == 0
                &&& cron@ == body.cron_expression@
                &&& body.provider.into_config_post(provider)
                &&& body.strategy.into_config_post(strategy)
            },
            Err(reply) => {
                &&& body.spec_errors().len() > 0
                &&& spec_error_reply(reply, 400, spec_response_message(body.spec_errors()))
            },
        },
{
    match body.validate() {
        Ok(()) => {},
        Err(e) => {
            let error_response = ErrorResponse::from_validation_errors(&e);
            return Err(HttpReply { status: 400, body: ReplyBody::Error(error_response) });
        },
    }
    let strategy = body.strategy.into_config();
    let provider = body.provider.into_config();
    Ok((body.cron_expression, provider, strategy))
}

/// The answer to a create request once the use case ran: 201 with the new id,
/// or 500.
pub fn create_secret_reply(result: ServiceResult<u128>) -> (res: HttpReply)
    ensures
        match result {
            Ok(id) => res.status == 201 && res.body == ReplyBody::SecretCreated(SaveSecretResponse { id }),
            Err(_) => spec_internal_error(res),
        },
{
    match result {
        Ok(id) => HttpReply { status: 201, body: ReplyBody::SecretCreated(SaveSecretResponse { id }) },
        Err(_) => error_reply(500, "Internal server error"),
    }
}

/// The answer to a listing of secrets: 200 with the page in reply form (ids,
/// strategies, providers, creation and update times) and the total, or 500.
pub fn list_secrets_reply(result: ServiceResult<SecretsPage>) -> (res: HttpReply)
    ensures
        match result {
            Ok(page) => res.status == 200 && (res.body matches ReplyBody::Secrets { items, total } && {
                &&& total == page.total as u64
                &&& items@.len() == page.items@.len()
                &&& forall|i: int|
                    0 <= i < items@.len() ==> #[trigger] items@[i].id == page.items@[i].id
                        && spec_strategy_reply(items@[i].strategy, page.items@[i].strategy)
                        && spec_provider_reply(items@[i].provider, page.items@[i].provider)
                        && items@[i].created_at == page.items@[i].created_at
                        && items@[i].updated_at == page.items@[i].updated_at
            }),
            Err(_) => spec_internal_error(res),
        },
{
    match result {
        Ok(page) => {
            let ghost originals = page.items@;
            let total = page.total as u64;
            let n: usize = page.items.len();
            let mut source = page.items;
            let mut items: Vec<SecretResponse> = Vec::new();
            let mut i: usize = 0;
            while source.len() > 0
                invariant
                    originals.len() == n,
                    i + source@.len() == originals.len(),
                    source@ == originals.skip(i as int),
                    items@.len() == i,
                    forall|j: int|
                        0 <= j < i ==> #[trigger] items@[j].id == originals[j].id
                            && spec_strategy_reply(items@[j].strategy, originals[j].strategy)
                            && spec_provider_reply(items@[j].provider, originals[j].provider)
                            && items@[j].created_at == originals[j].created_at
                            && items@[j].updated_at == originals[j].updated_at,
                decreases source@.len(),
            {
                let ghost before = source@;
                let secret = source.remove(0);
                assert(before[0] == originals[i as int]);
                assert(source@ =~= originals.skip(i + 1));
                items.push(SecretResponse::from(secret));
                i = i + 1;
            }
            assert(i == originals.len());
            HttpReply { status: 200, body: ReplyBody::Secrets { items, total } }
        },
        Err(_) => error_reply(500, "Internal server error"),
    }
}

/// The answer to a read of one secret: 200 with it (id, strategy, provider,
/// creation and update times), 404 when missing, or 500.
pub fn get_secret_reply(result: ServiceResult<Secret>) -> (res: HttpReply)
    ensures
        match result {
            Ok(secret) => res.status == 200 && (res.body matches ReplyBody::Secret(r) && r.id == secret.id
                && spec_strategy_reply(r.strategy, secret.strategy)
                && spec_provider_reply(r.provider, secret.provider)
                && r.created_at == secret.created_at && r.updated_at == secret.updated_at),
            Err(ServiceError::NotFound) => spec_error_reply(res, 404, "Secret not found"@),
            Err(_) => spec_internal_error(res),
        },
{
    match result {
        Ok(secret) => HttpReply { status: 200, body: ReplyBody::Secret(SecretResponse::from(secret)) },
        Err(ServiceError::NotFound) => error_reply(404, "Secret not found"),
        Err(_) => error_reply(500, "Internal server error"),
    }
}

/// The answer to an activation: 200 with the slot now active, 404 when the
/// secret is missing, 400 with the reason for a secret that is not blue/green,
/// or 500.
pub fn activate_reply(result: ServiceResult<ActiveSlot>) -> (res: HttpReply)
    ensures
        match result {
            Ok(slot) => res.status == 200 && (res.body matches ReplyBody::Activated(r)
                && r.active_slot@ == slot.spec_name()),
            Err(ServiceError::NotFound) => spec_error_reply(res, 404, "Secret not found"@),
            Err(ServiceError::InvalidOperation(m)) => spec_error_reply(res, 400, m@),
            Err(_) => spec_internal_error(res),
        },
{
    match result {
        Ok(slot) => HttpReply {
            status: 200,
            body: ReplyBody::Activated(ActivateBlueGreenResponse { active_slot: slot.name() }),
        },
        Err(ServiceError::NotFound) => error_reply(404, "Secret not found"),
        Err(ServiceError::InvalidOperation(msg)) => HttpReply {
            status: 400,
            body: ReplyBody::Error(ErrorResponse { message: msg }),
        },
        Err(_) => error_reply(500, "Internal server error"),
    }
}

/// Before a manual rotation the secret is read: a missing secret is answered
/// 404 at once; any other outcome lets the rotation go ahead.
pub fn rotate_precheck(lookup: &ServiceResult<Secret>) -> (res: Option<HttpReply>)
    ensures
        match lookup {
            Err(ServiceError::NotFound) => res matches Some(r) && spec_error_reply(r, 404, "Secret not found"@),
            _ => res is None,
        },
{
    match lookup {
        Err(ServiceError::NotFound) => Some(error_reply(404, "Secret not found")),
        _ => None,
    }
}

/// The answer to a manual rotation: 200 `done` with the path for a
/// single-path secret, 200 `ready` with both slots for a blue/green one (it
/// waits for activation), 404 when missing, or 500 `Rotation failed`.
pub fn rotate_reply(result: ServiceResult<RotationOutcome>) -> (res: HttpReply)
    ensures
        match result {
            Ok(RotationOutcome::Single { path }) => res.status == 200
                && (res.body matches ReplyBody::Rotated(r) && r.status == RotationStatus::Done
                && r.details == RotationDetailsResponse::Single(SingleRotationResponse { path })),
            Ok(RotationOutcome::BlueGreen { active_slot, active_path, ready_slot, ready_path }) => res.status == 200
                && (res.body matches ReplyBody::Rotated(r) && r.status == RotationStatus::Ready
                && r.details == RotationDetailsResponse::BlueGreen(
                    BlueGreenRotationResponse { active_slot, active_path, ready_slot, ready_path },
                )),
            Err(ServiceError::NotFound) => spec_error_reply(res, 404, "Secret not found"@),
            Err(_) => spec_error_reply(res, 500, "Rotation failed"@),
        },
{
    match result {
        Ok(outcome) => {
            let (status, details) = match outcome {
                RotationOutcome::Single { path } => (
                    RotationStatus::Done,
                    RotationDetailsResponse::Single(SingleRotationResponse { path }),
                ),
                RotationOutcome::BlueGreen { active_slot, active_path, ready_slot, ready_path } => (
                    RotationStatus::Ready,
                    RotationDetailsResponse::BlueGreen(
                        BlueGreenRotationResponse { active_slot, active_path, ready_slot, ready_path },
                    ),
                ),
            };
            HttpReply { status: 200, body: ReplyBody::Rotated(RotateSecretResponse { status, details }) }
        },
        Err(ServiceError::NotFound) => error_reply(404, "Secret not found"),
        Err(_) => error_reply(500, "Rotation failed"),
    }
}

/// The register request's URL if the request is valid; otherwise the 400
/// answer with the message of its errors.
pub fn register_webhook_input(body: RegisterWebhookRequest) -> (res: Result<String, HttpReply>)
    ensures
        match res {
            Ok(url) => body.spec_errors().len() == 0 && url@ == body.url@,
            Err(reply) => body.spec_errors().len() > 0
                && spec_error_reply(reply, 400, spec_response_message(body.spec_errors())),
        },
{
    match body.validate() {
        Ok(()) => Ok(body.url),
        Err(e) => Err(HttpReply { status: 400, body: ReplyBody::Error(ErrorResponse::from_validation_errors(&e)) }),
    }
}

/// The answer to a registration once forwarded: 201 with the webhook's id, or 500.
pub fn register_webhook_reply(result: ServiceResult<u128>) -> (res: HttpReply)
    ensures
        match result {
            Ok(id) => res.status == 201 && res.body == ReplyBody::WebhookRegistered(RegisterWebhookResponse { id }),
            Err(_) => spec_internal_error(res),
        },
{
    match result {
        Ok(id) => HttpReply { status: 201, body: ReplyBody::WebhookRegistered(RegisterWebhookResponse { id }) },
        Err(_) => error_reply(500, "Internal server error"),
    }
}

/// The answer to a listing of webhooks: 200 with each webhook's id, URL and
/// creation time and the total, or 500.
pub fn list_webhooks_reply(result: ServiceResult<WebhooksPage>) -> (res: HttpReply)
    ensures
        match result {
            Ok(page) => res.status == 200 && (res.body matches ReplyBody::Webhooks { items, total } && {
                &&& total == page.total as u64
                &&& items@.len() == page.items@.len()
                &&& forall|i: int|
                    0 <= i < items@.len() ==> #[trigger] items@[i].id == page.items@[i].id
                        && items@[i].url@ == page.items@[i].url@
                        && items@[i].created_at == page.items@[i].created_at
            }),
            Err(_) => spec_internal_error(res),
        },
{
    match result {
        Ok(page) => {
            let mut items: Vec<WebhookResponse> = Vec::new();
            let mut i: usize = 0;
            while i < page.items.len()
                invariant
                    i <= page.items@.len(),
                    items@.len() == i,
                    forall|j: int|
                        0 <= j < i ==> #[trigger] items@[j].id == page.items@[j].id
                            && items@[j].url@ == page.items@[j].url@
                            && items@[j].created_at == page.items@[j].created_at,
                decreases page.items@.len() - i,
            {
                let w = &page.items[i];
                let item = WebhookResponse { id: w.id, url: w.url.clone(), created_at: w.created_at };
                assert(item.id == page.items@[i as int].id);
                assert(item.url@ == page.items@[i as int].url@);
                assert(item.created_at == page.items@[i as int].created_at);
                items.push(item);
                assert(items@[i as int].id == page.items@[i as int].id);
                i = i + 1;
            }
            HttpReply { status: 200, body: ReplyBody::Webhooks { items, total: page.total as u64 } }
        },
        Err(_) => error_reply(500, "Internal server error"),
    }
}

/// The answer to a deletion of a webhook: 204 with no body, 404 when
/// missing, or 500.
pub fn delete_webhook_reply(result: ServiceResult<()>) -> (res: HttpReply)
    ensures
        match result {
            Ok(()) => res.status == 204 && res.body == ReplyBody::Empty,
            Err(ServiceError::NotFound) => spec_error_reply(res, 404, "Webhook not found"@),
            Err(_) => spec_internal_error(res),
        },
{
    match result {
        Ok(()) => HttpReply { status: 204, body: ReplyBody::Empty },
        Err(ServiceError::NotFound) => error_reply(404, "Webhook not found"),
        Err(_) => error_reply(500, "Internal server error"),
    }
}

} // verus!
