//! Error taxonomy of the core.
//!
//! Resolution and pool-creation failures abort a request immediately;
//! per-line failures during a multi-line reconciliation abort the remaining
//! lines but preserve the ones already applied; notification failures are
//! logged by the caller and never surface.

use vstd::prelude::*;

verus! {

/// Failure to resolve a tenant identity from a session artifact.
/// Both variants are terminal for the calling request: there is no
/// silent default tenant.
#[derive(Clone, Copy, Debug, PartialEq, Eq, Structural)]
pub enum ResolutionError {
    /// No session artifact was presented.
    Missing,
    /// An artifact was presented but could not be decoded.
    Malformed,
}

/// Failure to construct a connection pool for a tenant key. The registry
/// does not retry; callers decide retry policy.
#[derive(Debug)]
pub struct PoolCreationError {
    pub message: String,
}

/// Failure reported by the fulfillment engine.
#[derive(Clone, Copy, Debug, PartialEq, Eq, Structural)]
pub enum FulfillmentError {
    /// The order (or item) the request names is absent from the store.
    NotFound,
    /// The requested status transition is not allowed by the order
    /// state machine.
    InvalidTransition,
    /// The ledger refused the write.
    StoreWrite,
}

/// Connection-layer errors, as surfaced to request handling.
#[derive(Debug)]
pub enum DbError {
    ConnectionPoolError(String),
    CookieParseError(String),
    EnvVarError(),
}

impl ResolutionError {
    /// A short stable label for the error, for structured error payloads.
    pub fn label(&self) -> (r: &'static str)
        ensures
            *self is Missing ==> r@ == "tenant unresolved: artifact missing"@,
            *self is Malformed ==> r@ == "tenant unresolved: artifact malformed"@,
    {
        match self {
            ResolutionError::Missing => "tenant unresolved: artifact missing",
            ResolutionError::Malformed => "tenant unresolved: artifact malformed",
        }
    }
}

impl FulfillmentError {
    /// A short stable label for the error, for structured error payloads.
    pub fn label(&self) -> (r: &'static str)
        ensures
            *self is NotFound ==> r@ == "not found"@,
            *self is InvalidTransition ==> r@ == "invalid status transition"@,
            *self is StoreWrite ==> r@ == "storage unavailable"@,
    {
        match self {
            FulfillmentError::NotFound => "not found",
            FulfillmentError::InvalidTransition => "invalid status transition",
            FulfillmentError::StoreWrite => "storage unavailable",
        }
    }
}

} // verus!
