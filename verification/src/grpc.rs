//! gRPC statuses as plain values.
use vstd::prelude::*;

verus! {

/// The status codes of gRPC.
#[derive(Debug, Clone, Copy, PartialEq, Eq, Structural)]
pub enum GrpcCode {
    /// The call succeeded (code 0, `OK`).
    Success,
    Cancelled,
    Unknown,
    InvalidArgument,
    DeadlineExceeded,
    NotFound,
    AlreadyExists,
    PermissionDenied,
    ResourceExhausted,
    FailedPrecondition,
    Aborted,
    OutOfRange,
    Unimplemented,
    Internal,
    Unavailable,
    DataLoss,
    Unauthenticated,
}

/// A failed gRPC call: its code and message.
#[derive(Debug, Clone, PartialEq, Eq)]
pub struct GrpcStatus {
    pub code: GrpcCode,
    pub message: String,
}

/// A status with a code and message.
pub open spec fn spec_status(status: GrpcStatus, code: GrpcCode, message: Seq<char>) -> bool {
    status.code == code && status.message@ == message
}

impl GrpcStatus {
    /// A status with this code and message.
    pub fn new(code: GrpcCode, message: &str) -> (res: GrpcStatus)
        ensures
            spec_status(res, code, message@),
    {
        GrpcStatus { code, message: String::from_str(message) }
    }

    /// A status with this code and owned message.
    pub fn with_message(code: GrpcCode, message: String) -> (res: GrpcStatus)
        ensures
            spec_status(res, code, message@),
    {
        GrpcStatus { code, message }
    }
}

} // verus!
