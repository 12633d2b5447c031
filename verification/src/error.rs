//! The error taxonomy every operation of this crate reports through.

use vstd::prelude::*;

use crate::status::{AuthorizationStatus, OrderStatus};

verus! {

/// Kinds of protocol-problem documents the certificate authority can report.
/// Only the bad-nonce kind is distinguished, because it alone is retried;
/// every other kind travels as `Other` with its detail text.
#[derive(Clone, Copy, PartialEq, Eq, Structural, Debug)]
pub enum ProblemKind {
    BadNonce,
    Other,
}

/// A structured problem document reported by the certificate authority.
#[derive(Clone, Debug)]
pub struct Problem {
    pub kind: ProblemKind,
    pub detail: String,
}

/// A failure surfaced by the external certificate-authority engine: either a
/// structured problem document or any other engine-side failure's text.
#[derive(Clone, Debug)]
pub enum AcmeFailure {
    Problem(Problem),
    Other(String),
}

/// A capability the certificate authority was expected to offer and did not.
#[derive(Clone, Copy, PartialEq, Eq, Structural, Debug)]
pub enum MissingFeature {
    Dns01Challenge,
}

/// A protocol-invariant violation: an operation met a resource in a state
/// the flow does not allow, or the provisioning service confirmed a
/// challenge other than the one the authority reported.
#[derive(Clone, Debug)]
pub enum StateViolation {
    UnexpectedOrderStatus(OrderStatus),
    UnexpectedAuthorizationStatus(AuthorizationStatus),
    ProvisionedChallengeMismatch { expected: String, provisioned: String },
}

/// The single tagged error outcome of every operation.
#[derive(Clone, Debug)]
pub enum LocalcertError {
    /// A failure of the certificate-authority engine.
    AcmeError(AcmeFailure),
    /// The authority lacks a capability the flow needs.
    AcmeFeatureMissing(MissingFeature),
    /// A non-success HTTP exchange without a parseable problem document:
    /// the status code and the raw body text.
    HttpError(u16, String),
    /// The configured base URL cannot serve as a base; carries the value.
    InvalidBaseUrl(String),
    /// Malformed JSON on the request or response path; carries the detail.
    JsonError(String),
    /// A state/protocol violation.
    StateError(StateViolation),
}

pub type LocalcertResult<T> = Result<T, LocalcertError>;

/// Whether a failed outcome is specifically a bad-nonce problem: the one
/// failure the wire client retries once.
pub open spec fn spec_is_bad_nonce_error<T>(res: Result<T, LocalcertError>) -> bool {
    match res {
        Err(LocalcertError::AcmeError(AcmeFailure::Problem(p))) => p.kind == ProblemKind::BadNonce,
        _ => false,
    }
}

pub fn is_bad_nonce_error<T>(res: &LocalcertResult<T>) -> (r: bool)
    ensures
        r == spec_is_bad_nonce_error(*res),
{
    match res {
        Err(LocalcertError::AcmeError(AcmeFailure::Problem(p))) => p.kind == ProblemKind::BadNonce,
        _ => false,
    }
}

impl LocalcertError {
    /// The state error reporting that an order was met in `status` where a
    /// different sub-state was required.
    pub fn unexpected_order_status(status: OrderStatus) -> (e: Self)
        ensures
            e == LocalcertError::StateError(StateViolation::UnexpectedOrderStatus(status)),
    {
        LocalcertError::StateError(StateViolation::UnexpectedOrderStatus(status))
    }
}

} // verus!
