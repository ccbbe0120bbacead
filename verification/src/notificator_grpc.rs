//! The notificator's gRPC endpoints for registering, listing and deleting
//! webhooks: request checks and answers.
use vstd::prelude::*;
use crate::grpc::{GrpcCode, GrpcStatus, spec_status};
use crate::ids::{parse_uuid, spec_parse_uuid, spec_uuid_text, uuid_text};
use crate::notify::Webhook;
use crate::store::{AddWebhookError, DeleteWebhookError, GetWebhooksError, InfrastructureError};

verus! {

/// A request to store a webhook.
#[derive(Debug, Clone, PartialEq, Eq)]
pub struct AddWebhookRequest {
    pub secret_id: u128,
    pub url: String,
}

/// A request for one page of a secret's webhooks, newest first.
#[derive(Debug, Clone, Copy, PartialEq, Eq)]
pub struct ListWebhooksRequest {
    pub secret_id: u128,
    pub limit: i64,
    pub offset: i64,
}

/// One page of a secret's webhooks and the number of all of them.
#[derive(Debug)]
pub struct WebhooksPage {
    pub items: Vec<Webhook>,
    pub total: i64,
}

/// A webhook in the gRPC answer to a listing (ids as text).
#[derive(Debug)]
pub struct WebhookEntry {
    pub id: String,
    pub secret_id: String,
    pub url: String,
    pub created_at: chrono::NaiveDateTime,
}

/// The gRPC answer to a listing.
#[derive(Debug)]
pub struct ListWebhooksResponse {
    pub webhooks: Vec<WebhookEntry>,
    pub total: i64,
}

/// Why a notificator use case failed.
#[derive(Debug, Clone, PartialEq, Eq)]
pub enum ServiceError {
    PersistenceError(String),
    NotFound,
    Other(String),
}

impl ServiceError {
    /// The error's text.
    pub open spec fn spec_describe(self) -> Seq<char> {
        match self {
            ServiceError::PersistenceError(m) => "persistence error: "@ + m@,
            ServiceError::NotFound => "not found"@,
            ServiceError::Other(m) => "other error: "@ + m@,
        }
    }

    /// The error's text, such as `not found`.
    pub fn describe(&self) -> (res: String)
        ensures
            res@ == self.spec_describe(),
    {
        match self {
            ServiceError::PersistenceError(m) => {
                let mut s = String::from_str("persistence error: ");
                s.append(m.as_str());
                s
            },
            ServiceError::NotFound => String::from_str("not found"),
            ServiceError::Other(m) => {
                let mut s = String::from_str("other error: ");
                s.append(m.as_str());
                s
            },
        }
    }
}

/// An internal status naming what failed and the store's error.
pub open spec fn spec_internal(status: GrpcStatus, what: Seq<char>, e: InfrastructureError) -> bool {
    spec_status(status, GrpcCode::Internal, what + "infrastructure error: "@ + e.message@)
}

fn internal(what: &str, e: &InfrastructureError) -> (res: GrpcStatus)
    ensures
        spec_internal(res, what@, *e),
{
    let mut m = String::from_str(what);
    m.append(e.describe().as_str());
    assert(m@ =~= what@ + "infrastructure error: "@ + e.message@);
    GrpcStatus::with_message(GrpcCode::Internal, m)
}

/// A registration to store: the secret's id must be a UUID and the URL not
/// empty; otherwise `INVALID_ARGUMENT`.
pub fn register_webhook_request(secret_id: &str, url: String) -> (res: Result<AddWebhookRequest, GrpcStatus>)
    ensures
        match spec_parse_uuid(secret_id@) {
            None => res matches Err(s) && spec_status(s, GrpcCode::InvalidArgument, "invalid secret_id"@),
            Some(id) => if url@.len() == 0 {
                res matches Err(s) && spec_status(s, GrpcCode::InvalidArgument, "url cannot be empty"@)
            } else {
                res matches Ok(r) && r.secret_id == id && r.url@ == url@
            },
        },
{
    let secret_id = match parse_uuid(secret_id) {
        Some(id) => id,
        None => {
            return Err(GrpcStatus::new(GrpcCode::InvalidArgument, "invalid secret_id"));
        },
    };
    if url.as_str().is_empty() {
        return Err(GrpcStatus::new(GrpcCode::InvalidArgument, "url cannot be empty"));
    }
    Ok(AddWebhookRequest { secret_id, url })
}

/// The answer to a registration: the stored webhook's id as text, which reads
/// back as the same id; `INTERNAL` when storing failed.
pub fn register_webhook_response(saved: Result<Webhook, AddWebhookError>) -> (res: Result<String, GrpcStatus>)
    ensures
        match saved {
            Ok(w) => res matches Ok(text) && text@ == spec_uuid_text(w.id) && spec_parse_uuid(text@) == Some(w.id),
            Err(e) => res matches Err(s) && spec_internal(s, "failed to save webhook: "@, e),
        },
{
    match saved {
        Ok(w) => Ok(uuid_text(w.id)),
        Err(e) => Err(internal("failed to save webhook: ", &e)),
    }
}

/// A listing to run: the secret's id must be a UUID; otherwise `INVALID_ARGUMENT`.
pub fn list_webhooks_request(secret_id: &str, limit: i64, offset: i64) -> (res: Result<ListWebhooksRequest, GrpcStatus>)
    ensures
        match spec_parse_uuid(secret_id@) {
            None => res matches Err(s) && spec_status(s, GrpcCode::InvalidArgument, "invalid secret_id"@),
            Some(id) => res == Ok::<ListWebhooksRequest, GrpcStatus>(ListWebhooksRequest { secret_id: id, limit, offset }),
        },
{
    match parse_uuid(secret_id) {
        Some(id) => Ok(ListWebhooksRequest { secret_id: id, limit, offset }),
        None => Err(GrpcStatus::new(GrpcCode::InvalidArgument, "invalid secret_id")),
    }
}

/// The answer to a listing: each webhook with its ids as text, and the total;
/// `INTERNAL` when reading failed.
pub fn list_webhooks_response(page: Result<WebhooksPage, GetWebhooksError>) -> (res: Result<ListWebhooksResponse, GrpcStatus>)
    ensures
        match page {
            Ok(p) => res matches Ok(r) && {
                &&& r.total == p.total
                &&& r.webhooks@.len() == p.items@.len()
                &&& forall|i: int|
                    0 <= i < r.webhooks@.len() ==> {
                        &&& (#[trigger] r.webhooks@[i]).id@ == spec_uuid_text(p.items@[i].id)
                        &&& r.webhooks@[i].secret_id@ == spec_uuid_text(p.items@[i].secret_id)
                        &&& r.webhooks@[i].url@ == p.items@[i].url@
                        &&& r.webhooks@[i].created_at == p.items@[i].created_at
                    }
            },
            Err(e) => res matches Err(s) && spec_internal(s, "failed to list webhooks: "@, e),
        },
{
    match page {
        Err(e) => Err(internal("failed to list webhooks: ", &e)),
        Ok(p) => {
            let mut webhooks: Vec<WebhookEntry> = Vec::new();
            let mut i: usize = 0;
            while i < p.items.len()
                invariant
                    i <= p.items@.len(),
                    webhooks@.len() == i,
                    forall|j: int|
                        0 <= j < i ==> {
                            &&& (#[trigger] webhooks@[j]).id@ == spec_uuid_text(p.items@[j].id)
                            &&& webhooks@[j].secret_id@ == spec_uuid_text(p.items@[j].secret_id)
                            &&& webhooks@[j].url@ == p.items@[j].url@
                            &&& webhooks@[j].created_at == p.items@[j].created_at
                        },
                decreases p.items@.len() - i,
            {
                let w = &p.items[i];
                let entry = WebhookEntry {
                    id: uuid_text(w.id),
                    secret_id: uuid_text(w.secret_id),
                    url: w.url.clone(),
                    created_at: w.created_at,
                };
                assert(entry.created_at == p.items@[i as int].created_at);
                webhooks.push(entry);
                i = i + 1;
            }
            Ok(ListWebhooksResponse { webhooks, total: p.total })
        },
    }
}

/// The webhook to delete: its id must be a UUID; otherwise `INVALID_ARGUMENT`.
pub fn delete_webhook_request(webhook_id: &str) -> (res: Result<u128, GrpcStatus>)
    ensures
        match spec_parse_uuid(webhook_id@) {
            Some(id) => res == Ok::<u128, GrpcStatus>(id),
            None => res matches Err(s) && spec_status(s, GrpcCode::InvalidArgument, "invalid webhook_id"@),
        },
{
    match parse_uuid(webhook_id) {
        Some(id) => Ok(id),
        None => Err(GrpcStatus::new(GrpcCode::InvalidArgument, "invalid webhook_id")),
    }
}

/// The answer to a deletion: success when a webhook was deleted, `NOT_FOUND`
/// when there was none, `INTERNAL` when deleting failed.
pub fn delete_webhook_response(deleted: Result<bool, DeleteWebhookError>) -> (res: Result<(), GrpcStatus>)
    ensures
        match deleted {
            Ok(true) => res == Ok::<(), GrpcStatus>(()),
            Ok(false) => res matches Err(s) && spec_status(s, GrpcCode::NotFound, "webhook not found"@),
            Err(e) => res matches Err(s) && spec_internal(s, "failed to delete webhook: "@, e),
        },
{
    match deleted {
        Err(e) => Err(internal("failed to delete webhook: ", &e)),
        Ok(false) => Err(GrpcStatus::new(GrpcCode::NotFound, "webhook not found")),
        Ok(true) => Ok(()),
    }
}

} // verus!
