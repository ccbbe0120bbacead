//! The API service's use cases: creating a secret (and rolling it back when it
//! cannot be scheduled), activating a blue/green slot, manual rotation, and the
//! webhook calls forwarded to the notificator.
use vstd::prelude::*;
use crate::grpc::{GrpcCode, GrpcStatus};
use crate::ids::{parse_uuid, spec_parse_uuid};
use crate::secret_rows::{AddSecretRequest, DeleteSecretRequest};
use crate::secrets::{ActiveSlot, ProviderConfig, Secret, StrategyConfig};
use crate::store::{AddSecretError, DeleteSecretError, FlipActiveSlotError, GetSecretError, ListSecretsError, LookupError};

verus! {

/// Why a use case failed.
#[derive(Debug, Clone, PartialEq, Eq)]
pub enum ServiceError {
    PersistenceError(String),
    NotFound,
    InvalidOperation(String),
    Other(String),
}

/// The result of a use case.
pub type ServiceResult<T> = Result<T, ServiceError>;

impl ServiceError {
    /// The error's text.
    pub open spec fn spec_describe(self) -> Seq<char> {
        match self {
            ServiceError::PersistenceError(m) => "persistence error: "@ + m@,
            ServiceError::NotFound => "not found"@,
            ServiceError::InvalidOperation(m) => "invalid operation: "@ + m@,
            ServiceError::Other(m) => "other error: "@ + m@,
        }
    }

    /// The error's text, such as `persistence error: database error`.
    pub fn describe(&self) -> (res: String)
        ensures
            res@ == self.spec_describe(),
    {
        match self {
            ServiceError::PersistenceError(m) => {
                let mut s = String::from_str("persistence error: ");
                s.append(m.as_str());
                s
            },
            ServiceError::NotFound => String::from_str("not found"),
            ServiceError::InvalidOperation(m) => {
                let mut s = String::from_str("invalid operation: ");
                s.append(m.as_str());
                s
            },
            ServiceError::Other(m) => {
                let mut s = String::from_str("other error: ");
                s.append(m.as_str());
                s
            },
        }
    }
}

/// A persistence error with this message.
pub open spec fn spec_persistence(e: ServiceError, message: Seq<char>) -> bool {
    e matches ServiceError::PersistenceError(m) && m@ == message
}

/// An "other" error with this message.
pub open spec fn spec_other(e: ServiceError, message: Seq<char>) -> bool {
    e matches ServiceError::Other(m) && m@ == message
}

/// The error of a failed read of one secret: a missing secret is not found,
/// any other failure a database error.
pub open spec fn spec_lookup_error(e: LookupError, res: ServiceError, message: Seq<char>) -> bool {
    match e {
        LookupError::NotFound => res == ServiceError::NotFound,
        LookupError::Infrastructure(_) => spec_persistence(res, message),
    }
}

/// The error of a failed read of one secret.
pub fn get_secret_error(e: GetSecretError) -> (res: ServiceError)
    ensures
        spec_lookup_error(e, res, "database error"@),
{
    match e {
        LookupError::NotFound => ServiceError::NotFound,
        LookupError::Infrastructure(_) => ServiceError::PersistenceError(String::from_str("database error")),
    }
}

/// The error of a failed listing of secrets: a database error.
pub fn list_secrets_error(e: ListSecretsError) -> (res: ServiceError)
    ensures
        spec_persistence(res, "database error"@),
{
    ServiceError::PersistenceError(String::from_str("database error"))
}

/// What the caller does next while creating a secret.
#[derive(Debug)]
pub enum CreateSecretAction {
    /// Store the secret.
    Save(AddSecretRequest),
    /// Ask the scheduler to schedule the secret's rotation.
    Schedule { secret_id: u128, cron_expression: String },
    /// Roll back: delete the stored secret.
    Delete(DeleteSecretRequest),
    /// Creation is over with this result: the new secret's id, or why not.
    Finish(ServiceResult<u128>),
}

/// The creation of one secret: the schedule asked for and the secret stored.
pub struct CreateSecret {
    cron_expression: String,
    secret_id: u128,
}

impl CreateSecret {
    /// The schedule asked for.
    pub closed spec fn cron_expression(self) -> Seq<char> {
        self.cron_expression@
    }

    /// The id of the stored secret (once stored).
    pub closed spec fn secret_id(self) -> u128 {
        self.secret_id
    }

    /// Starts creating a secret: it is stored first.
    pub fn start(cron_expression: String, provider: ProviderConfig, strategy: StrategyConfig) -> (res: (CreateSecret, CreateSecretAction))
        ensures
            res.0.cron_expression() == cron_expression@,
            res.1 matches CreateSecretAction::Save(req) && req.cron_expression@ == cron_expression@
                && req.strategy@ == strategy@ && req.provider@ == provider@,
    {
        let request = AddSecretRequest { cron_expression: cron_expression.clone(), strategy, provider };
        (CreateSecret { cron_expression, secret_id: 0 }, CreateSecretAction::Save(request))
    }

    /// Takes the outcome of storing: a failure ends creation with a persistence
    /// error; otherwise the rotation is scheduled with the same expression.
    pub fn on_saved(&mut self, saved: Result<Secret, AddSecretError>) -> (res: CreateSecretAction)
        ensures
            final(self).cron_expression() == old(self).cron_expression(),
            match saved {
                Err(_) => res matches CreateSecretAction::Finish(Err(e))
                    && spec_persistence(e, "failed to save secret"@),
                Ok(secret) => {
                    &&& final(self).secret_id() == secret.id
                    &&& res matches CreateSecretAction::Schedule { secret_id, cron_expression }
                        && secret_id == secret.id && cron_expression@ == old(self).cron_expression()
                },
            },
    {
        match saved {
            Err(_) => CreateSecretAction::Finish(
                Err(ServiceError::PersistenceError(String::from_str("failed to save secret"))),
            ),
            Ok(secret) => {
                self.secret_id = secret.id;
                CreateSecretAction::Schedule { secret_id: secret.id, cron_expression: self.cron_expression.clone() }
            },
        }
    }

    /// Takes the scheduler's answer: on success creation ends with the new id;
    /// on failure the stored secret is deleted.
    pub fn on_scheduled(&mut self, scheduled: Result<(), GrpcStatus>) -> (res: CreateSecretAction)
        ensures
            final(self).secret_id() == old(self).secret_id(),
            match scheduled {
                Ok(()) => res matches CreateSecretAction::Finish(Ok(id)) && id == old(self).secret_id(),
                Err(_) => res matches CreateSecretAction::Delete(req) && req.id == old(self).secret_id(),
            },
    {
        match scheduled {
            Ok(()) => CreateSecretAction::Finish(Ok(self.secret_id)),
            Err(_) => CreateSecretAction::Delete(DeleteSecretRequest { id: self.secret_id }),
        }
    }

    /// Takes the outcome of the rollback, whatever it is: creation fails.
    pub fn on_deleted(&mut self, deleted: Result<(), DeleteSecretError>) -> (res: CreateSecretAction)
        ensures
            res matches CreateSecretAction::Finish(Err(e)) && spec_other(e, "failed to schedule secret rotation"@),
    {
        CreateSecretAction::Finish(Err(ServiceError::Other(String::from_str("failed to schedule secret rotation"))))
    }
}

/// What the activation announces: the slot now active and the path that
/// stopped being read.
#[derive(Debug, Clone, PartialEq, Eq)]
pub enum RotationDoneDetails {
    BlueGreen { active_slot: String, outdated_path: String },
}

/// What the caller does next while activating a blue/green secret.
#[derive(Debug)]
pub enum ActivateAction {
    /// Read the secret.
    FetchSecret { id: u128 },
    /// Make the other slot active in the store.
    FlipActiveSlot { id: u128 },
    /// Publish `rotation.done` for the secret.
    PublishDone { secret_id: u128, details: RotationDoneDetails },
    /// Activation is over with this result: the slot now active, or why not.
    Finish(ServiceResult<ActiveSlot>),
}

/// The activation of one blue/green secret.
pub struct ActivateBlueGreen {
    id: u128,
    outdated_path: String,
    new_slot: ActiveSlot,
}

impl ActivateBlueGreen {
    /// The secret activated.
    pub closed spec fn id(self) -> u128 {
        self.id
    }

    /// The path active before activation.
    pub closed spec fn outdated_path(self) -> Seq<char> {
        self.outdated_path@
    }

    /// The slot active after activation (once flipped).
    pub closed spec fn new_slot(self) -> ActiveSlot {
        self.new_slot
    }

    /// Starts activating a secret: it is read first.
    pub fn start(id: u128) -> (res: (ActivateBlueGreen, ActivateAction))
        ensures
            res.0.id() == id,
            res.1 == (ActivateAction::FetchSecret { id }),
    {
        (
            ActivateBlueGreen { id, outdated_path: String::new(), new_slot: ActiveSlot::Blue },
            ActivateAction::FetchSecret { id },
        )
    }

    /// Takes the secret read: a missing secret is not found, a read failure a
    /// database error, a single-path secret an invalid operation; for a
    /// blue/green secret its active path is remembered and the slot flipped.
    pub fn on_secret(&mut self, fetched: Result<Secret, GetSecretError>) -> (res: ActivateAction)
        ensures
            final(self).id() == old(self).id(),
            match fetched {
                Err(e) => res matches ActivateAction::Finish(Err(se)) && spec_lookup_error(e, se, "database error"@),
                Ok(secret) => match secret.strategy {
                    StrategyConfig::Single(_) => res matches ActivateAction::Finish(Err(ServiceError::InvalidOperation(m)))
                        && m@ == "activate is only valid for blue_green strategy"@,
                    StrategyConfig::BlueGreen(bg) => {
                        &&& final(self).outdated_path() == bg.spec_active_path()
                        &&& res == ActivateAction::FlipActiveSlot { id: old(self).id() }
                    },
                },
            },
    {
        match fetched {
            Err(e) => ActivateAction::Finish(Err(get_secret_error(e))),
            Ok(secret) => match &secret.strategy {
                StrategyConfig::Single(_) => ActivateAction::Finish(
                    Err(ServiceError::InvalidOperation(String::from_str("activate is only valid for blue_green strategy"))),
                ),
                StrategyConfig::BlueGreen(bg) => {
                    self.outdated_path = bg.active_path();
                    ActivateAction::FlipActiveSlot { id: self.id }
                },
            },
        }
    }

    /// Takes the slot the store made active: a missing secret is not found, a
    /// store failure a persistence error; otherwise `rotation.done` is published
    /// with the new slot and the path that was active before.
    pub fn on_flipped(&mut self, flipped: Result<ActiveSlot, FlipActiveSlotError>) -> (res: ActivateAction)
        ensures
            final(self).id() == old(self).id(),
            final(self).outdated_path() == old(self).outdated_path(),
            match flipped {
                Err(e) => res matches ActivateAction::Finish(Err(se)) && spec_lookup_error(e, se, "failed to flip active slot"@),
                Ok(slot) => {
                    &&& final(self).new_slot() == slot
                    &&& res matches ActivateAction::PublishDone {
                        secret_id,
                        details: RotationDoneDetails::BlueGreen { active_slot, outdated_path },
                    } && secret_id == old(self).id() && active_slot@ == slot.spec_name()
                        && outdated_path@ == old(self).outdated_path()
                },
            },
    {
        match flipped {
            Err(e) => ActivateAction::Finish(
                Err(
                    match e {
                        LookupError::NotFound => ServiceError::NotFound,
                        LookupError::Infrastructure(_) => ServiceError::PersistenceError(
                            String::from_str("failed to flip active slot"),
                        ),
                    },
                ),
            ),
            Ok(slot) => {
                self.new_slot = slot;
                ActivateAction::PublishDone {
                    secret_id: self.id,
                    details: RotationDoneDetails::BlueGreen {
                        active_slot: slot.name(),
                        outdated_path: self.outdated_path.clone(),
                    },
                }
            },
        }
    }

    /// Takes the outcome of publishing, whatever it is: activation succeeds
    /// with the new slot (a lost announcement does not undo the flip).
    pub fn on_published<E>(&mut self, published: Result<(), E>) -> (res: ActivateAction)
        ensures
            res == ActivateAction::Finish(Ok(old(self).new_slot())),
    {
        ActivateAction::Finish(Ok(self.new_slot))
    }
}

/// What a manual rotation did, as the rotator reports it.
#[derive(Debug, Clone, PartialEq, Eq)]
pub enum RotationOutcome {
    Single { path: String },
    BlueGreen { active_slot: String, active_path: String, ready_slot: String, ready_path: String },
}

/// The outcome of a manual rotation from the rotator's answer: its result, a
/// not-found for an unknown secret, and an error for an empty answer or any
/// other failure.
pub fn rotation_outcome(answer: Result<Option<RotationOutcome>, GrpcStatus>) -> (res: ServiceResult<RotationOutcome>)
    ensures
        match answer {
            Ok(Some(outcome)) => res == Ok::<RotationOutcome, ServiceError>(outcome),
            Ok(None) => res matches Err(e) && spec_other(e, "rotator returned empty result"@),
            Err(status) => if status.code == GrpcCode::NotFound {
                res == Err::<RotationOutcome, ServiceError>(ServiceError::NotFound)
            } else {
                res matches Err(e) && spec_other(e, "rotation failed"@)
            },
        },
{
    match answer {
        Ok(Some(outcome)) => Ok(outcome),
        Ok(None) => Err(ServiceError::Other(String::from_str("rotator returned empty result"))),
        Err(status) => if status.code == GrpcCode::NotFound {
            Err(ServiceError::NotFound)
        } else {
            Err(ServiceError::Other(String::from_str("rotation failed")))
        },
    }
}

/// The id of a webhook registered through the notificator: its answer's id,
/// which must be a UUID.
pub fn registered_webhook_id(answer: Result<String, GrpcStatus>) -> (res: ServiceResult<u128>)
    ensures
        match answer {
            Ok(text) => match spec_parse_uuid(text@) {
                Some(id) => res == Ok::<u128, ServiceError>(id),
                None => res matches Err(e) && spec_other(e, "invalid webhook_id from notificator"@),
            },
            Err(_) => res matches Err(e) && spec_other(e, "failed to register webhook"@),
        },
{
    match answer {
        Ok(text) => match parse_uuid(text.as_str()) {
            Some(id) => Ok(id),
            None => Err(ServiceError::Other(String::from_str("invalid webhook_id from notificator"))),
        },
        Err(_) => Err(ServiceError::Other(String::from_str("failed to register webhook"))),
    }
}

/// The outcome of deleting a webhook through the notificator.
pub fn webhook_deleted(answer: Result<(), GrpcStatus>) -> (res: ServiceResult<()>)
    ensures
        match answer {
            Ok(()) => res == Ok::<(), ServiceError>(()),
            Err(status) => if status.code == GrpcCode::NotFound {
                res == Err::<(), ServiceError>(ServiceError::NotFound)
            } else {
                res matches Err(e) && spec_other(e, "failed to delete webhook"@)
            },
        },
{
    match answer {
        Ok(()) => Ok(()),
        Err(status) => if status.code == GrpcCode::NotFound {
            Err(ServiceError::NotFound)
        } else {
            Err(ServiceError::Other(String::from_str("failed to delete webhook")))
        },
    }
}

/// A point in time (read as UTC): whole seconds since the Unix epoch and the
/// nanoseconds past them.
#[derive(Debug, Clone, Copy, PartialEq, Eq, Structural)]
pub struct Timestamp {
    pub secs: i64,
    pub nanos: u32,
}

/// The point in time that `chrono::NaiveDateTime::parse_from_str` reads from a
/// text with the format `%Y-%m-%d %H:%M:%S%.f`, as seconds since the Unix epoch
/// and nanoseconds past them; `None` where it fails.
pub uninterp spec fn spec_parse_created_at(text: Seq<char>) -> Option<(i64, u32)>;

/// Calls `chrono::NaiveDateTime::parse_from_str` with the format
/// `%Y-%m-%d %H:%M:%S%.f` and reads the time as UTC seconds and nanoseconds
/// (`and_utc().timestamp()`, `timestamp_subsec_nanos()`). Claimed: the result
/// is the named parse `spec_parse_created_at` of the text.
#[verifier::external_body]
fn parse_created_at(text: &str) -> (res: Option<(i64, u32)>)
    ensures
        res == spec_parse_created_at(text@),
{
    match chrono::NaiveDateTime::parse_from_str(text, "%Y-%m-%d %H:%M:%S%.f") {
        Ok(t) => Some((t.and_utc().timestamp(), t.and_utc().timestamp_subsec_nanos())),
        Err(_) => None,
    }
}

/// A webhook as the notificator lists it.
#[derive(Debug, Clone, PartialEq, Eq)]
pub struct WebhookEntry {
    pub id: String,
    pub secret_id: String,
    pub url: String,
    pub created_at: String,
}

/// The notificator's answer to a listing: a page of webhooks and their number.
#[derive(Debug, Clone, PartialEq, Eq)]
pub struct ListWebhooksReply {
    pub webhooks: Vec<WebhookEntry>,
    pub total: i64,
}

/// A webhook as the API reports it.
#[derive(Debug)]
pub struct WebhookInfo {
    pub id: u128,
    pub url: String,
    pub created_at: Timestamp,
}

/// One page of webhooks and the number of all webhooks of the secret.
#[derive(Debug)]
pub struct WebhooksPage {
    pub items: Vec<WebhookInfo>,
    pub total: i64,
}

/// What is wrong with a listed webhook, if anything: its id must be a UUID and
/// its creation time readable (checked in that order).
pub open spec fn spec_entry_error(e: WebhookEntry) -> Option<Seq<char>> {
    if spec_parse_uuid(e.id@) is None {
        Some("invalid webhook id from notificator"@)
    } else if spec_parse_created_at(e.created_at@) is None {
        Some("invalid created_at from notificator"@)
    } else {
        None
    }
}

/// What is wrong with the first faulty webhook of a listing, if any.
pub open spec fn spec_first_entry_error(entries: Seq<WebhookEntry>) -> Option<Seq<char>>
    decreases entries.len(),
{
    if entries.len() == 0 {
        None
    } else {
        match spec_entry_error(entries[0]) {
            Some(m) => Some(m),
            None => spec_first_entry_error(entries.drop_first()),
        }
    }
}

/// The page of webhooks from the notificator's answer: each webhook with its
/// id read as a UUID and its creation time read; the first faulty webhook, or
/// a failed call, makes the listing fail.
pub fn webhooks_page(answer: Result<ListWebhooksReply, GrpcStatus>) -> (res: ServiceResult<WebhooksPage>)
    ensures
        match answer {
            Err(_) => res matches Err(e) && spec_other(e, "failed to list webhooks"@),
            Ok(reply) => match spec_first_entry_error(reply.webhooks@) {
                Some(m) => res matches Err(e) && spec_other(e, m),
                None => res matches Ok(page) && {
                    &&& page.total == reply.total
                    &&& page.items@.len() == reply.webhooks@.len()
                    &&& forall|i: int|
                        0 <= i < page.items@.len() ==> {
                            &&& Some(#[trigger] page.items@[i].id) == spec_parse_uuid(reply.webhooks@[i].id@)
                            &&& page.items@[i].url@ == reply.webhooks@[i].url@
                            &&& Some((page.items@[i].created_at.secs, page.items@[i].created_at.nanos))
                                == spec_parse_created_at(reply.webhooks@[i].created_at@)
                        }
                },
            },
        },
{
    match answer {
        Err(_) => Err(ServiceError::Other(String::from_str("failed to list webhooks"))),
        Ok(reply) => {
            let entries = &reply.webhooks;
            let mut items: Vec<WebhookInfo> = Vec::new();
            let mut i: usize = 0;
            assert(entries@.skip(0) =~= entries@);
            while i < entries.len()
                invariant
                    i <= entries@.len(),
                    answer matches Ok(r) && r.webhooks@ == entries@,
                    spec_first_entry_error(entries@) == spec_first_entry_error(entries@.skip(i as int)),
                    items@.len() == i,
                    forall|j: int|
                        0 <= j < i ==> {
                            &&& Some(#[trigger] items@[j].id) == spec_parse_uuid(entries@[j].id@)
                            &&& items@[j].url@ == entries@[j].url@
                            &&& Some((items@[j].created_at.secs, items@[j].created_at.nanos))
                                == spec_parse_created_at(entries@[j].created_at@)
                        },
                decreases entries@.len() - i,
            {
                let ghost rest = entries@.skip(i as int);
                assert(rest.drop_first() =~= entries@.skip(i + 1));
                assert(rest[0] == entries@[i as int]);
                let entry = &entries[i];
                let id = match parse_uuid(entry.id.as_str()) {
                    Some(id) => id,
                    None => {
                        return Err(ServiceError::Other(String::from_str("invalid webhook id from notificator")));
                    },
                };
                let created_at = match parse_created_at(entry.created_at.as_str()) {
                    Some((secs, nanos)) => Timestamp { secs, nanos },
                    None => {
                        return Err(ServiceError::Other(String::from_str("invalid created_at from notificator")));
                    },
                };
                items.push(WebhookInfo { id, url: entry.url.clone(), created_at });
                i = i + 1;
            }
            assert(entries@.skip(entries@.len() as int) =~= Seq::<WebhookEntry>::empty());
            Ok(WebhooksPage { items, total: reply.total })
        },
    }
}

} // verus!
