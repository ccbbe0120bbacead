//! Failures reported by the stores (the Postgres repositories), as plain values.
use vstd::prelude::*;

verus! {

/// A store operation failed for an infrastructure reason (connection, query);
/// `message` is the error's text.
#[derive(Debug, Clone, PartialEq, Eq)]
pub struct InfrastructureError {
    pub message: String,
}

/// A store operation on one record: the record may be missing.
#[derive(Debug, Clone, PartialEq, Eq)]
pub enum LookupError {
    NotFound,
    Infrastructure(InfrastructureError),
}

/// Saving a secret failed.
pub type AddSecretError = InfrastructureError;

/// Deleting a secret failed.
pub type DeleteSecretError = LookupError;

/// Reading one secret failed.
pub type GetSecretError = LookupError;

/// Listing secrets failed.
pub type ListSecretsError = InfrastructureError;

/// Flipping the active slot of a blue/green secret failed.
pub type FlipActiveSlotError = LookupError;

/// Saving a webhook failed.
pub type AddWebhookError = InfrastructureError;

/// Reading webhooks failed.
pub type GetWebhooksError = InfrastructureError;

/// Deleting a webhook failed.
pub type DeleteWebhookError = InfrastructureError;

/// The database could not be reached or migrated; `message` says why.
#[derive(Debug, Clone, PartialEq, Eq)]
pub struct DbConnectionError {
    pub message: String,
}

impl DbConnectionError {
    /// `failed to connect to database: <cause>`.
    pub fn describe(&self) -> (res: String)
        ensures
            res@ == "failed to connect to database: "@ + self.message@,
    {
        let mut s = String::from_str("failed to connect to database: ");
        s.append(self.message.as_str());
        s
    }
}

impl InfrastructureError {
    /// `infrastructure error: <cause>`.
    pub fn describe(&self) -> (res: String)
        ensures
            res@ == "infrastructure error: "@ + self.message@,
    {
        let mut s = String::from_str("infrastructure error: ");
        s.append(self.message.as_str());
        s
    }
}

/// The outcome of deleting one secret from the number of rows removed:
/// not found when none was.
pub fn secret_deletion_outcome(rows_affected: u64) -> (res: Result<(), DeleteSecretError>)
    ensures
        rows_affected == 0 ==> res == Err::<(), DeleteSecretError>(LookupError::NotFound),
        rows_affected > 0 ==> res == Ok::<(), DeleteSecretError>(()),
{
    if rows_affected == 0 {
        Err(LookupError::NotFound)
    } else {
        Ok(())
    }
}

/// Whether deleting a webhook removed one, from the number of rows removed.
pub fn webhook_was_deleted(rows_affected: u64) -> (res: bool)
    ensures
        res == (rows_affected > 0),
{
    rows_affected > 0
}

/// The outcome of reading one record that may be missing: not found when no
/// row came back.
pub fn lookup_outcome<T>(row: Option<T>) -> (res: Result<T, LookupError>)
    ensures
        match row {
            Some(r) => res == Ok::<T, LookupError>(r),
            None => res == Err::<T, LookupError>(LookupError::NotFound),
        },
{
    match row {
        Some(r) => Ok(r),
        None => Err(LookupError::NotFound),
    }
}

/// A point in time as the stores keep it (a timestamp without time zone).
#[verifier::external_type_specification]
#[verifier::external_body]
pub struct ExNaiveDateTime(chrono::NaiveDateTime);

} // verus!
