use vstd::prelude::*;

verus! {

/// A failure surfaced by a workload run.
///
/// Primitive failures are fatal: the worker that meets one stops at once and
/// the driver reports the failure instead of a measurement.
#[derive(Clone, Copy, Debug, PartialEq, Eq, Structural)]
pub enum BenchError {
    /// A send or a receive found the other endpoint of its channel dropped.
    Disconnected,
    /// The mutex around the shared counter was poisoned.
    Poisoned,
    /// An accumulator or the shared counter would exceed its integer width.
    Overflow,
}

} // verus!
