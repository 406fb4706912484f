//! What a single request produced, and how it is classified.
use vstd::prelude::*;

verus! {

/// What came back from sending one request.
#[derive(Clone, Copy, Debug, PartialEq, Eq, Structural)]
pub enum Reply {
    /// A response arrived with this HTTP status code.
    Status(u16),
    /// No response: connection refused, timeout, TLS or DNS failure.
    TransportError,
}

/// The verdict on one request.
#[derive(Clone, Copy, Debug, PartialEq, Eq, Structural)]
pub enum Classification {
    /// The response carried 200 or 201; the status is kept.
    Success(u16),
    Failure,
}

/// One completed request: how long it took and how it was classified.
#[derive(Clone, Copy, Debug, PartialEq, Eq, Structural)]
pub struct Outcome {
    pub duration_ns: u64,
    pub classification: Classification,
}

pub const STATUS_OK: u16 = 200;

pub const STATUS_CREATED: u16 = 201;

/// A status that counts as success.
pub open spec fn is_success_status(status: u16) -> bool {
    status == STATUS_OK || status == STATUS_CREATED
}

pub open spec fn classification_of(reply: Reply) -> Classification {
    match reply {
        Reply::Status(s) => if is_success_status(s) {
            Classification::Success(s)
        } else {
            Classification::Failure
        },
        Reply::TransportError => Classification::Failure,
    }
}

impl Outcome {
    pub open spec fn is_success(self) -> bool {
        self.classification is Success
    }
}

/// Classifies a reply: 200 and 201 succeed; any other status and every
/// transport error fail.
pub fn classify(reply: Reply) -> (r: Classification)
    ensures
        r == classification_of(reply),
{
    match reply {
        Reply::Status(s) => {
            if s == STATUS_OK || s == STATUS_CREATED {
                Classification::Success(s)
            } else {
                Classification::Failure
            }
        },
        Reply::TransportError => Classification::Failure,
    }
}

/// The outcome of a request that took `duration_ns` and produced `reply`.
pub fn outcome_of(reply: Reply, duration_ns: u64) -> (r: Outcome)
    ensures
        r.duration_ns == duration_ns,
        r.classification == classification_of(reply),
{
    Outcome { duration_ns, classification: classify(reply) }
}

} // verus!
