use vstd::prelude::*;
use crate::error::BenchError;

verus! {

#[verifier::external_type_specification]
#[verifier::external_body]
#[verifier::reject_recursive_types(T)]
pub struct ExJoinHandle<T>(async_std::task::JoinHandle<T>);

/// What a worker reports when it finishes: the value it hands back at its
/// join — an accumulator for producers and consumers, an operation count for
/// lockers — beside the ghost record of the messages it sent or received.
pub type WorkerReport = (Result<u64, BenchError>, Ghost<Seq<u64>>);

/// A running worker, joinable exactly once for its report.
pub struct WorkerHandle {
    handle: async_std::task::JoinHandle<WorkerReport>,
}

/// The reports a given worker can hand back at its join: exactly those its
/// body's postcondition admits, as [`spawn_worker`] promises of each handle
/// it returns.
pub uninterp spec fn worker_promise(h: WorkerHandle, r: WorkerReport) -> bool;

/// Relies on async_std::task::spawn_blocking: `f` runs exactly once, on a
/// thread of the pool dedicated to blocking work, and whatever it returns is
/// what joining the handle hands back. Verified callers satisfy `f`'s
/// precondition here, so the worker cannot panic and every report it can
/// hand back meets `f`'s postcondition.
#[verifier::external_body]
pub(crate) fn spawn_worker<F: FnOnce() -> WorkerReport + Send + 'static>(f: F) -> (h: WorkerHandle)
    requires
        f.requires(()),
    ensures
        forall|ret: WorkerReport| #[trigger] worker_promise(h, ret) ==> f.ensures((), ret),
{
    WorkerHandle { handle: async_std::task::spawn_blocking(f) }
}

/// Relies on async_std::task::block_on: blocks the caller until the worker
/// finishes and returns the worker's own report.
#[verifier::external_body]
pub(crate) fn join_worker(h: WorkerHandle) -> (r: WorkerReport)
    ensures
        worker_promise(h, r),
{
    async_std::task::block_on(h.handle)
}

} // verus!
