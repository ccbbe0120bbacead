//! The HTTP models of webhooks: the register request and its validation rules.
use vstd::prelude::*;
use crate::api_services::Timestamp;
use crate::secret_models::spec_length_errors;
use crate::validation::{
    EntryView, Field, ValidationError, ValidationErrorView, ValidationErrors, length_error,
    length_within, spec_errors_view, spec_field_entry, spec_outcome, spec_url_error, url_error,
};

verus! {

/// The value that `validator::ValidateUrl::validate_url` gives for a text:
/// whether the `url` crate parses it as a URL.
pub uninterp spec fn spec_is_url(text: Seq<char>) -> bool;

/// Calls `validator::ValidateUrl::validate_url`, which parses the text with
/// `url::Url::parse`. Claimed: the result is the named predicate `spec_is_url`.
#[verifier::external_body]
fn is_url(text: &String) -> (res: bool)
    ensures
        res == spec_is_url(text@),
{
    validator::ValidateUrl::validate_url(text)
}

/// Request payload for registering a webhook.
#[derive(Debug, Clone, PartialEq, Eq)]
pub struct RegisterWebhookRequest {
    /// The URL to call when a rotation event occurs for this secret.
    pub url: String,
}

/// Response returned after successful webhook registration.
#[derive(Debug, Clone, Copy, PartialEq, Eq)]
pub struct RegisterWebhookResponse {
    pub id: u128,
}

/// A single webhook entry.
#[derive(Debug)]
pub struct WebhookResponse {
    pub id: u128,
    pub url: String,
    pub created_at: Timestamp,
}

impl RegisterWebhookRequest {
    /// The errors of the URL: it must be a URL, and have 1 to 2048 characters
    /// (both checks run, in that order).
    pub open spec fn spec_url_errors(self) -> Seq<ValidationErrorView> {
        (if spec_is_url(self.url@) {
            Seq::empty()
        } else {
            seq![spec_url_error()]
        }) + spec_length_errors(self.url@, 1, 2048)
    }

    /// The errors of a register request.
    pub open spec fn spec_errors(self) -> Seq<EntryView> {
        spec_field_entry(Field::Url, self.spec_url_errors())
    }

    /// Checks a register request.
    pub fn validate(&self) -> (res: Result<(), ValidationErrors>)
        ensures
            spec_outcome(res, self.spec_errors()),
    {
        let mut url_errors: Vec<ValidationError> = Vec::new();
        if !is_url(&self.url) {
            url_errors.push(url_error());
        }
        if !length_within(&self.url, 1, 2048) {
            url_errors.push(length_error());
        }
        assert(spec_errors_view(url_errors@) =~= self.spec_url_errors());
        let mut errors = ValidationErrors::new();
        errors.add_field(Field::Url, url_errors);
        errors.into_result()
    }
}

} // verus!
