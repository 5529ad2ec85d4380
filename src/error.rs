//! The ways a call can fail.
use vstd::prelude::*;

verus! {

/// Why a call did not yield a result. Each call ends in one result or in
/// one of these, and none of them is retried.
#[derive(Debug, Clone, PartialEq, Eq)]
pub enum ApiError {
    /// A builder parameter was out of its allowed range.
    Precondition(String),
    /// The request could not be sent or its answer could not be read.
    Transport(String),
    /// The answer was not JSON, or not in the shape of an envelope.
    Decode(String),
    /// The service answered with a status other than success: the status
    /// and its message, as `<status>: <status_message>`.
    Remote(String),
    /// The service reported success but sent no payload.
    MissingData,
    /// The payload was not of the kind the request asks for.
    WrongData,
}

} // verus!
