//! Request trace ids: taken from the `x-trace-id` header when it holds a
//! UUID, made up otherwise, and echoed on the answer.
use vstd::prelude::*;
use crate::ids::{parse_uuid, spec_parse_uuid, spec_uuid_text, uuid_text};

verus! {

/// The identifier that ties the log records of one request together.
#[derive(Debug, Clone, Copy, PartialEq, Eq, Hash, Default)]
pub struct TraceId {
    pub id: u128,
}

/// Whether an id is a random (version 4, RFC 4122 variant) UUID: its version
/// field holds 4 and its variant bits are `10`.
pub open spec fn spec_is_random_uuid(id: u128) -> bool {
    &&& (id >> 76u128) & 0xfu128 == 4u128
    &&& (id >> 62u128) & 0x3u128 == 2u128
}

/// Calls `uuid::Uuid::new_v4`: a random UUID. Claimed, as the crate's source
/// shows (it masks random bits and sets the version to 4 and the variant to
/// RFC 4122): the id is a version 4 UUID. Which one is left to chance.
#[verifier::external_body]
fn random_uuid() -> (res: u128)
    ensures
        spec_is_random_uuid(res),
{
    uuid::Uuid::new_v4().as_u128()
}

/// The header that carries a request's trace id.
pub fn trace_id_header() -> (res: &'static str)
    ensures
        res@ == "x-trace-id"@,
{
    "x-trace-id"
}

impl TraceId {
    /// A fresh, random trace id: a version 4 UUID.
    pub fn new() -> (res: TraceId)
        ensures
            spec_is_random_uuid(res.id),
    {
        TraceId { id: random_uuid() }
    }

    /// The trace id a text names, when it is a UUID.
    pub fn parse(text: &str) -> (res: Option<TraceId>)
        ensures
            match spec_parse_uuid(text@) {
                Some(id) => res == Some(TraceId { id }),
                None => res is None,
            },
    {
        match parse_uuid(text) {
            Some(id) => Some(TraceId { id }),
            None => None,
        }
    }

    /// The trace id as text (hyphenated lower-case UUID), which parses back to it.
    pub fn to_text(&self) -> (res: String)
        ensures
            res@ == spec_uuid_text(self.id),
            spec_parse_uuid(res@) == Some(self.id),
    {
        uuid_text(self.id)
    }

    /// The trace id of a request: the one its header carries when the header
    /// holds a UUID, a fresh one otherwise.
    pub fn for_request(header: Option<&str>) -> (res: TraceId)
        ensures
            header matches Some(h) && spec_parse_uuid(h@) is Some ==> res.id == spec_parse_uuid(header->0@)->0,
            !(header matches Some(h) && spec_parse_uuid(h@) is Some) ==> spec_is_random_uuid(res.id),
    {
        let parsed = match header {
            Some(h) => TraceId::parse(h),
            None => None,
        };
        match parsed {
            Some(t) => t,
            None => TraceId::new(),
        }
    }
}

impl From<u128> for TraceId {
    fn from(value: u128) -> (res: TraceId) {
        TraceId { id: value }
    }
}

impl vstd::std_specs::convert::FromSpecImpl<u128> for TraceId {
    open spec fn obeys_from_spec() -> bool {
        true
    }

    open spec fn from_spec(value: u128) -> TraceId {
        TraceId { id: value }
    }
}

impl From<TraceId> for u128 {
    fn from(value: TraceId) -> (res: u128) {
        value.id
    }
}

impl vstd::std_specs::convert::FromSpecImpl<TraceId> for u128 {
    open spec fn obeys_from_spec() -> bool {
        true
    }

    open spec fn from_spec(value: TraceId) -> u128 {
        value.id
    }
}

} // verus!
