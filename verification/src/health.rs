//! The outcome of one health check and its interpretation.
//!
//! A health check is an HTTP GET against the service's local endpoint. The
//! driver reports each probe as a `HealthOutcome`: either a response arrived
//! with some status code, or no response could be obtained at all (connection
//! refused, timeout, resolution failure — no distinction is made). The
//! service counts as healthy exactly when a response arrived with a success
//! status code.

use vstd::prelude::*;

verus! {

/// What one health probe of the service observed.
#[derive(Clone, Copy, Debug, PartialEq, Eq, Structural)]
pub enum HealthOutcome {
    /// A response arrived, carrying this HTTP status code.
    Response(u16),
    /// No response was obtained; every kind of connection failure lands here.
    Unreachable,
}

/// An HTTP status code in the success class.
pub open spec fn is_success_code(code: u16) -> bool {
    200 <= code <= 299
}

/// The service is healthy exactly when a response arrived with a success
/// status code; any failure to obtain a response counts as unhealthy.
pub open spec fn is_healthy(o: HealthOutcome) -> bool {
    match o {
        HealthOutcome::Response(code) => is_success_code(code),
        HealthOutcome::Unreachable => false,
    }
}

/// Interprets one probe outcome: healthy iff a response arrived with a
/// success status code.
pub fn outcome_is_healthy(o: HealthOutcome) -> (r: bool)
    ensures
        r == is_healthy(o),
{
    match o {
        HealthOutcome::Response(code) => 200 <= code && code <= 299,
        HealthOutcome::Unreachable => false,
    }
}

} // verus!
