//! Webhook delivery: which failures are worth retrying, and the retry schedule
//! of one delivery (at most three attempts, waiting 2 s and then 4 s).
use vstd::prelude::*;

verus! {

/// What the HTTP client reports of a request that got no response.
#[derive(Debug, Clone, Copy, PartialEq, Eq, Structural)]
pub struct HttpFailure {
    /// The request timed out.
    pub is_timeout: bool,
    /// The connection could not be made.
    pub is_connect: bool,
    /// The request could not be sent.
    pub is_request: bool,
}

/// Why one delivery attempt failed.
#[derive(Debug, Clone, Copy, PartialEq, Eq, Structural)]
pub enum DeliveryError {
    /// The HTTP request itself failed.
    HttpError(HttpFailure),
    /// The endpoint answered with a status outside 200..=299.
    StatusError(u16),
}

/// The HTTP status `429 Too Many Requests`.
pub const TOO_MANY_REQUESTS: u16 = 429;

/// At most this many attempts are made for one delivery.
pub const MAX_DELIVERY_ATTEMPTS: u32 = 3;

/// A server error: a status in 500..=599.
pub open spec fn spec_is_server_error(status: u16) -> bool {
    500 <= status && status < 600
}

/// The outcome of an attempt that got an answer: delivered on a success
/// status, a status error otherwise.
pub fn answer_outcome(status: u16) -> (res: Result<(), DeliveryError>)
    ensures
        spec_is_success(status) ==> res == Ok::<(), DeliveryError>(()),
        !spec_is_success(status) ==> res == Err::<(), DeliveryError>(DeliveryError::StatusError(status)),
{
    if !status_is_success(status) {
        return Err(DeliveryError::StatusError(status));
    }
    Ok(())
}

/// Seconds allowed to connect to a webhook.
pub const CONNECT_TIMEOUT_SECS: u64 = 5;

/// Seconds allowed for a whole delivery request.
pub const REQUEST_TIMEOUT_SECS: u64 = 10;

/// Idle connections kept per webhook host.
pub const MAX_IDLE_CONNECTIONS_PER_HOST: usize = 10;

/// A success: a status in 200..=299.
pub open spec fn spec_is_success(status: u16) -> bool {
    200 <= status && status < 300
}

/// Whether an answer with this status counts as delivered.
pub fn status_is_success(status: u16) -> (res: bool)
    ensures
        res == spec_is_success(status),
{
    200 <= status && status < 300
}

impl DeliveryError {
    /// Errors that may succeed on retry: timeouts, connection and request
    /// failures, server errors and `429`.
    pub open spec fn spec_is_retriable(self) -> bool {
        match self {
            DeliveryError::HttpError(f) => f.is_timeout || f.is_connect || f.is_request,
            DeliveryError::StatusError(status) => spec_is_server_error(status) || status
                == TOO_MANY_REQUESTS,
        }
    }

    /// Returns true for errors that may succeed on retry.
    pub fn is_retriable(&self) -> (res: bool)
        ensures
            res == self.spec_is_retriable(),
    {
        match self {
            DeliveryError::HttpError(f) => f.is_timeout || f.is_connect || f.is_request,
            DeliveryError::StatusError(status) => {
                (500 <= *status && *status < 600) || *status == TOO_MANY_REQUESTS
            },
        }
    }
}

/// Which failures are retried: a request that timed out, could not connect or
/// could not be sent, every server error status (500 to 599) and 429; any other
/// status ends the delivery at once. So a first attempt answered with a server
/// error or 429 is followed by a second attempt after 2 seconds.
pub proof fn lemma_retried_failures(status: u16, f: HttpFailure)
    ensures
        DeliveryError::StatusError(status).spec_is_retriable() <==> ((500 <= status && status <= 599) || status == 429),
        DeliveryError::HttpError(f).spec_is_retriable() <==> (f.is_timeout || f.is_connect || f.is_request),
        ((500 <= status && status <= 599) || status == 429) ==> spec_record(0, Err(DeliveryError::StatusError(status)))
            == (1u32, DeliveryStep::Attempt { attempt: 1, delay_secs: 2 }),
        !((500 <= status && status <= 599) || status == 429) ==> spec_record(0, Err(DeliveryError::StatusError(status)))
            == (0u32, DeliveryStep::Finish(Err(DeliveryError::StatusError(status)))),
{
    lemma_retry_delays();
}

/// An answered attempt counts as delivered exactly on a status from 200 to 299.
pub proof fn lemma_success_statuses(status: u16)
    ensures
        spec_is_success(status) <==> 200 <= status <= 299,
{
}

/// What the caller does next in one delivery.
#[derive(Debug, Clone, Copy, PartialEq, Eq)]
pub enum DeliveryStep {
    /// Wait `delay_secs` seconds, then make attempt number `attempt` (from 0).
    Attempt { attempt: u32, delay_secs: u64 },
    /// The delivery is over with this result.
    Finish(Result<(), DeliveryError>),
}

/// The wait before attempt number `attempt`: none before the first, `2^attempt`
/// seconds before each retry.
pub open spec fn spec_retry_delay_secs(attempt: u32) -> u64 {
    if attempt == 0 {
        0
    } else {
        1u64 << attempt
    }
}

/// An outcome after which no further attempt is made: a success or a
/// non-retriable error.
pub open spec fn spec_ends_delivery(outcome: Result<(), DeliveryError>) -> bool {
    match outcome {
        Ok(()) => true,
        Err(e) => !e.spec_is_retriable(),
    }
}

/// An attempt that failed with a retriable error.
pub open spec fn spec_is_retriable_failure(outcome: Result<(), DeliveryError>) -> bool {
    match outcome {
        Ok(()) => false,
        Err(e) => e.spec_is_retriable(),
    }
}

/// One step of the retry schedule: the attempt now awaited and its outcome give
/// the attempt awaited next and what the caller does.
pub open spec fn spec_record(attempt: u32, outcome: Result<(), DeliveryError>) -> (u32, DeliveryStep) {
    match outcome {
        Ok(()) => (attempt, DeliveryStep::Finish(Ok(()))),
        Err(e) => if !e.spec_is_retriable() || attempt + 1 >= MAX_DELIVERY_ATTEMPTS {
            (attempt, DeliveryStep::Finish(Err(e)))
        } else {
            (
                (attempt + 1) as u32,
                DeliveryStep::Attempt {
                    attempt: (attempt + 1) as u32,
                    delay_secs: spec_retry_delay_secs((attempt + 1) as u32),
                },
            )
        },
    }
}

/// The retry schedule of one delivery: the number of the attempt whose outcome
/// is awaited.
pub struct DeliveryRetry {
    attempt: u32,
}

impl DeliveryRetry {
    /// The number of the attempt whose outcome is awaited (from 0).
    pub closed spec fn attempt(self) -> u32 {
        self.attempt
    }

    /// Well-formed: fewer than three attempts have been made.
    pub open spec fn wf(self) -> bool {
        self.attempt() < MAX_DELIVERY_ATTEMPTS
    }

    /// A new delivery: the first attempt is made at once.
    pub fn start() -> (res: (DeliveryRetry, DeliveryStep))
        ensures
            res.0.wf(),
            res.0.attempt() == 0,
            res.1 == (DeliveryStep::Attempt { attempt: 0, delay_secs: 0 }),
    {
        (DeliveryRetry { attempt: 0 }, DeliveryStep::Attempt { attempt: 0, delay_secs: 0 })
    }

    /// Takes the outcome of the awaited attempt: a success ends the delivery, a
    /// non-retriable error ends it with that error, a retriable error starts the
    /// next attempt after a wait unless three attempts have been made, in which
    /// case the delivery ends with that last error.
    pub fn record(&mut self, outcome: Result<(), DeliveryError>) -> (res: DeliveryStep)
        requires
            old(self).wf(),
        ensures
            final(self).wf(),
            (final(self).attempt(), res) == spec_record(old(self).attempt(), outcome),
    {
        match outcome {
            Ok(()) => DeliveryStep::Finish(Ok(())),
            Err(e) => {
                if !e.is_retriable() || self.attempt + 1 >= MAX_DELIVERY_ATTEMPTS {
                    DeliveryStep::Finish(Err(e))
                } else {
                    let next: u32 = self.attempt + 1;
                    self.attempt = next;
                    DeliveryStep::Attempt { attempt: next, delay_secs: 1u64 << next }
                }
            },
        }
    }
}

/// Feeding the attempt outcomes in turn to the schedule, from the attempt now
/// awaited: `Some((result, n))` when the delivery ends with `result` after `n`
/// of them, `None` when they run out first.
pub open spec fn spec_run(attempt: u32, outcomes: Seq<Result<(), DeliveryError>>) -> Option<
    (Result<(), DeliveryError>, nat),
>
    decreases outcomes.len(),
{
    if outcomes.len() == 0 {
        None
    } else {
        let (next, step) = spec_record(attempt, outcomes[0]);
        match step {
            DeliveryStep::Finish(r) => Some((r, 1nat)),
            DeliveryStep::Attempt { .. } => match spec_run(next, outcomes.drop_first()) {
                Some((r, n)) => Some((r, n + 1)),
                None => None,
            },
        }
    }
}

proof fn lemma_run_from(attempt: u32, outcomes: Seq<Result<(), DeliveryError>>)
    requires
        attempt < MAX_DELIVERY_ATTEMPTS,
        outcomes.len() >= MAX_DELIVERY_ATTEMPTS - attempt,
    ensures
        spec_run(attempt, outcomes) matches Some((r, n)) && {
            &&& 1 <= n <= MAX_DELIVERY_ATTEMPTS - attempt
            &&& r == outcomes[n - 1]
            &&& forall|i: int|
                0 <= i < n - 1 ==> spec_is_retriable_failure(#[trigger] outcomes[i])
            &&& (n < MAX_DELIVERY_ATTEMPTS - attempt ==> spec_ends_delivery(outcomes[n - 1]))
        },
    decreases MAX_DELIVERY_ATTEMPTS - attempt,
{
    let (next, step) = spec_record(attempt, outcomes[0]);
    match step {
        DeliveryStep::Finish(r) => {
            assert(spec_run(attempt, outcomes) == Some((r, 1nat)));
            if let Ok(u) = outcomes[0] {
                assert(u == ());
            }
        },
        DeliveryStep::Attempt { .. } => {
            let rest = outcomes.drop_first();
            lemma_run_from(next, rest);
            assert forall|i: int| 0 <= i < rest.len() implies rest[i] == outcomes[i + 1] by {}
        },
    }
}

/// One delivery ends within three attempts, whatever their outcomes: it ends
/// with the outcome of its last attempt, every earlier attempt failed with a
/// retriable error, and it stops before the third attempt only on a success or
/// a non-retriable error.
pub proof fn lemma_delivery_ends_within_three_attempts(outcomes: Seq<Result<(), DeliveryError>>)
    requires
        outcomes.len() >= MAX_DELIVERY_ATTEMPTS,
    ensures
        spec_run(0, outcomes) matches Some((r, n)) && {
            &&& 1 <= n <= MAX_DELIVERY_ATTEMPTS
            &&& r == outcomes[n - 1]
            &&& forall|i: int|
                0 <= i < n - 1 ==> spec_is_retriable_failure(#[trigger] outcomes[i])
            &&& (n < MAX_DELIVERY_ATTEMPTS ==> spec_ends_delivery(outcomes[n - 1]))
        },
{
    lemma_run_from(0, outcomes);
}

/// The waits before the second and third attempts are 2 and 4 seconds.
pub proof fn lemma_retry_delays()
    ensures
        spec_retry_delay_secs(1) == 2,
        spec_retry_delay_secs(2) == 4,
{
    assert(1u64 << 1u32 == 2) by (bit_vector);
    assert(1u64 << 2u32 == 4) by (bit_vector);
}

} // verus!
