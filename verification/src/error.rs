//! The ways a call can fail.

use vstd::prelude::*;

verus! {

/// A failure in the HTTP transport, as `reqwest` reports it. Carried as it is.
#[verifier::external_type_specification]
#[verifier::external_body]
pub struct ExTransportError(reqwest::Error);

/// A JSON encoding or decoding failure, as `serde_json` reports it. Carried
/// as it is.
#[verifier::external_type_specification]
#[verifier::external_body]
pub struct ExJsonError(serde_json::Error);

/// An error that a cluster member states in the body of its reply.
#[derive(Clone, Debug, PartialEq, Eq, Hash)]
pub struct ApiError {
    /// The key that was operated upon, or the reason for the failure.
    pub cause: String,
    /// The etcd error code.
    pub error_code: u16,
    /// The etcd index at the time of the failure.
    pub index: u64,
    /// A description of the error for people to read.
    pub message: String,
}

/// An error returned by a call to one cluster member.
#[derive(Debug)]
pub enum EtcdError {
    /// The member answered with an error of its own.
    Api(ApiError),
    /// The request did not get through, or the reply could not be read.
    Http(reqwest::Error),
    /// A compare-and-swap or compare-and-delete was asked for with no
    /// condition to compare.
    InvalidConditions,
    /// An endpoint is not a valid URI.
    InvalidUri,
    /// A body could not be written as, or read from, JSON.
    Serialization(serde_json::Error),
    /// The member answered a request whose reply has no body to read with a
    /// status that the call does not know.
    UnexpectedStatus(u16),
}

/// An error returned by a watch.
#[derive(Debug)]
pub enum WatchError {
    /// The call itself failed. A call fails when every member has failed, so
    /// what is handed on is the whole list of their errors, one for each
    /// member in the order of the attempts, and not one error picked from it.
    Other(Vec<EtcdError>),
    /// The time allowed for the watch ran out before any change was seen.
    Timeout,
}

impl From<reqwest::Error> for EtcdError {
    fn from(error: reqwest::Error) -> (r: EtcdError) {
        EtcdError::Http(error)
    }
}

impl vstd::std_specs::convert::FromSpecImpl<reqwest::Error> for EtcdError {
    open spec fn obeys_from_spec() -> bool {
        true
    }

    open spec fn from_spec(error: reqwest::Error) -> EtcdError {
        EtcdError::Http(error)
    }
}

impl From<serde_json::Error> for EtcdError {
    fn from(error: serde_json::Error) -> (r: EtcdError) {
        EtcdError::Serialization(error)
    }
}

impl vstd::std_specs::convert::FromSpecImpl<serde_json::Error> for EtcdError {
    open spec fn obeys_from_spec() -> bool {
        true
    }

    open spec fn from_spec(error: serde_json::Error) -> EtcdError {
        EtcdError::Serialization(error)
    }
}

} // verus!
