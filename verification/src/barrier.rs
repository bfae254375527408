use vstd::prelude::*;
use std::sync::Arc;

verus! {

#[verifier::external_type_specification]
#[verifier::external_body]
pub struct ExBarrier(std::sync::Barrier);

/// The participant count a barrier was constructed with: `wait` releases its
/// callers exactly when that many of them have arrived.
pub uninterp spec fn barrier_quota(b: std::sync::Barrier) -> nat;

/// Relies on std::sync::Barrier::new: the barrier releases a generation of
/// waiters exactly when `p` calls to `wait` have arrived.
#[verifier::external_body]
fn barrier_new(p: usize) -> (b: std::sync::Barrier)
    ensures
        barrier_quota(b) == p as nat,
{
    std::sync::Barrier::new(p)
}

/// Relies on std::sync::Barrier::wait: blocks the caller until the barrier's
/// participant count is reached, then releases all waiters together.
#[verifier::external_body]
fn barrier_wait(b: &std::sync::Barrier) {
    b.wait();
}

/// Relies on Arc::clone: the result is a handle to the same allocation, hence
/// to the very same barrier.
#[verifier::external_body]
fn barrier_share(b: &Arc<std::sync::Barrier>) -> (r: Arc<std::sync::Barrier>)
    ensures
        r == *b,
{
    Arc::clone(b)
}

/// Witness that a start barrier has released: the holder reached a barrier's
/// rendezvous together with every other participant. Channel and counter
/// operations demand one, so no worker can touch the primitive under
/// measurement before the whole population has been released.
pub struct StartGuard {
    _witness: (),
}

/// A one-shot rendezvous with a fixed participant count, shared by every
/// worker of a workload and by its driver. Each handle points at one common
/// underlying barrier.
pub struct StartBarrier {
    inner: Arc<std::sync::Barrier>,
    participants: usize,
}

impl StartBarrier {
    /// The participant count this rendezvous was built for.
    pub closed spec fn participants(self) -> nat {
        self.participants as nat
    }

    /// The handle counts its participants exactly as the barrier it shares.
    pub closed spec fn wf(self) -> bool {
        barrier_quota(*self.inner) == self.participants as nat
    }

    /// A barrier that releases once `p` participants wait on it.
    pub fn new(p: usize) -> (b: StartBarrier)
        requires
            p >= 1,
        ensures
            b.participants() == p as nat,
            b.wf(),
    {
        StartBarrier { inner: Arc::new(barrier_new(p)), participants: p }
    }

    /// Another handle to the same rendezvous, for one more of its
    /// participants to carry.
    pub fn share(&self) -> (r: StartBarrier)
        ensures
            r.participants() == self.participants(),
            r.wf() == self.wf(),
    {
        StartBarrier { inner: barrier_share(&self.inner), participants: self.participants }
    }

    /// Blocks until the whole population has arrived, then returns the
    /// witness of the release.
    pub fn wait(&self) -> StartGuard {
        barrier_wait(&self.inner);
        StartGuard { _witness: () }
    }
}

} // verus!
