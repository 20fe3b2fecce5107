//! The process-ID namespace capability, modeled as an explicit request with
//! a granted-or-denied outcome.

use vstd::prelude::*;

verus! {

/// The outcome of asking the operating system for a fresh process-ID
/// namespace. The request itself is a privileged kernel operation that the
/// surrounding program performs; the pipeline only consumes the outcome.
pub enum IsolationOutcome {
    /// The process is now alone in a new process-ID namespace.
    Granted,
    /// The operating system refused the request (for example, for lack of
    /// privilege) and the process keeps its original namespace.
    Denied,
}

/// Whether the pipeline continues after an isolation request with this
/// outcome: it always does. Isolation is best-effort by design — a denial
/// means reduced isolation, never an abort.
pub fn proceed_after_isolation(outcome: &IsolationOutcome) -> (r: bool)
    ensures
        r == true,
{
    match outcome {
        IsolationOutcome::Granted => true,
        IsolationOutcome::Denied => true,
    }
}

} // verus!
