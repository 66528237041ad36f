use vstd::prelude::*;

verus! {

/// The error taxonomy of the estimation and optimization core.
///
/// Every error propagates to the caller unchanged; the core performs no
/// internal recovery and never falls back from one estimation path to the
/// other.
#[derive(Clone, Copy, PartialEq, Eq, Structural, Debug)]
pub enum EstimateError {
    /// The message is malformed (an instruction index out of bounds, a
    /// duplicate account reference, or a missing fee payer) and was rejected
    /// before any estimation work began.
    Sanitization,
    /// A referenced account could not be resolved from account storage.
    AccountFetch,
    /// The replay ran but the underlying program execution failed; the
    /// transaction would most likely fail on chain as well.
    Execution,
    /// The remote simulation response omitted the consumed-units field; the
    /// response is incomplete, and missing is never treated as zero.
    ComputeUnits,
    /// The remote simulation reported exactly zero consumed units, the
    /// convention for a simulated execution that did not run at all.
    SimulationFailed,
    /// The padded limit does not fit in an unsigned 32-bit count.
    Overflow,
}

} // verus!
