//! Identifiers: secrets and webhooks are identified by 128-bit UUIDs, carried
//! here as the plain `u128` that the `uuid` crate converts to and from.
use vstd::prelude::*;

verus! {

/// The value that `uuid::Uuid::parse_str` gives for a text: `Some` of the
/// UUID's 128 bits when the text is a UUID in one of the accepted forms.
pub uninterp spec fn spec_parse_uuid(text: Seq<char>) -> Option<u128>;

/// The hyphenated lower-case text that `uuid::Uuid`'s `Display` writes for an id.
pub uninterp spec fn spec_uuid_text(id: u128) -> Seq<char>;

/// Calls `uuid::Uuid::parse_str`. Claimed: the result is the named parse of
/// the text (`spec_parse_uuid`), the UUID's bits as a `u128`, or `None` where
/// the crate returns an error.
#[verifier::external_body]
pub(crate) fn parse_uuid(text: &str) -> (res: Option<u128>)
    ensures
        res == spec_parse_uuid(text@),
{
    match uuid::Uuid::parse_str(text) {
        Ok(id) => Some(id.as_u128()),
        Err(_) => None,
    }
}

/// Calls `uuid::Uuid::from_u128` and its `to_string`. Claimed: the text is the
/// named rendering of the id (`spec_uuid_text`), and, as the crate documents for
/// the formats it writes, `parse_str` reads that text back as the same id.
#[verifier::external_body]
pub(crate) fn uuid_text(id: u128) -> (res: String)
    ensures
        res@ == spec_uuid_text(id),
        spec_parse_uuid(res@) == Some(id),
{
    uuid::Uuid::from_u128(id).to_string()
}

} // verus!
