//! Infrastructure health checks: one liveness interface for every backend.

use vstd::prelude::*;

verus! {

/// A unified liveness probe. Implementations reach over the network, so
/// nothing is promised about their outcomes; the HTTP mapping of the result
/// is fixed by `health_status_code`.
pub trait HealthTrait: Sized {
    /// Probe the backing service once.
    fn health_check(&mut self) -> (r: Result<(), String>);
}

/// The HTTP status a health probe's outcome is reported as.
pub fn health_status_code(outcome: &Result<(), String>) -> (r: u16)
    ensures
        outcome is Ok <==> r == 200,
        outcome is Err <==> r == 503,
{
    match outcome {
        Ok(()) => 200,
        Err(_) => 503,
    }
}

} // verus!
