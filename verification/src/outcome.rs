//! The result shape of a non-blocking readiness probe.

use vstd::prelude::*;

verus! {

/// What one readiness probe of a transport reports.
///
/// A probe is non-blocking: it either finds the transport still preparing
/// (`Pending`), or it completes with a `Result` — `Ok(())` when the
/// transport can accept a request now, `Err(e)` when it cannot and reports
/// a readiness failure.
#[derive(Debug, PartialEq, Eq)]
pub enum Readiness<E> {
    /// The transport is not ready yet; probe again later.
    Pending,
    /// The probe completed: the transport is ready (`Ok`) or failed (`Err`).
    Ready(Result<(), E>),
}

impl<E> Readiness<E> {
    /// True exactly when this report lets a caller dispatch now.
    pub fn is_ready_ok(&self) -> (r: bool)
        ensures
            r == (*self matches Readiness::Ready(Ok(()))),
    {
        match self {
            Readiness::Ready(Ok(())) => true,
            _ => false,
        }
    }
}

} // verus!
