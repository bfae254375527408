use vstd::prelude::*;
use crate::channel::{
    crossbeam_bounded_pair, crossbeam_unbounded_pair, flume_bounded_pair, flume_unbounded_pair,
    mpsc_pair, mpsc_sync_pair, ChannelPair, ProducerHandle,
};
use crate::params::{BOUNDED_CAPACITY, MANY_TO_ONE_DIVISOR};
use crate::workload::{ManyToOne, OneToOne};

verus! {

/// A one-to-one workload over std::sync::mpsc::channel, unbounded.
pub fn new_one_to_one_channel(n: usize, m: u64) -> (w: OneToOne)
    requires
        2 * n + 1 <= usize::MAX,
        m >= 1,
    ensures
        w.wf(),
        w.pairs() == n as nat,
        w.messages() == m,
{
    OneToOne::new(n, m, || mpsc_pair())
}

/// A one-to-one workload over std::sync::mpsc::sync_channel with the standard
/// bounded capacity.
pub fn new_one_to_one_sync_channel(n: usize, m: u64) -> (w: OneToOne)
    requires
        2 * n + 1 <= usize::MAX,
        m >= 1,
    ensures
        w.wf(),
        w.pairs() == n as nat,
        w.messages() == m,
{
    OneToOne::new(n, m, || mpsc_sync_pair(BOUNDED_CAPACITY))
}

/// A one-to-one workload over flume::unbounded.
pub fn new_one_to_one_unbounded(n: usize, m: u64) -> (w: OneToOne)
    requires
        2 * n + 1 <= usize::MAX,
        m >= 1,
    ensures
        w.wf(),
        w.pairs() == n as nat,
        w.messages() == m,
{
    OneToOne::new(n, m, || flume_unbounded_pair())
}

/// A one-to-one workload over flume::bounded with the standard bounded
/// capacity.
pub fn new_one_to_one_bounded(n: usize, m: u64) -> (w: OneToOne)
    requires
        2 * n + 1 <= usize::MAX,
        m >= 1,
    ensures
        w.wf(),
        w.pairs() == n as nat,
        w.messages() == m,
{
    OneToOne::new(n, m, || flume_bounded_pair(BOUNDED_CAPACITY))
}

/// A one-to-one workload over crossbeam::channel::unbounded.
pub fn new_unbounded(n: usize, m: u64) -> (w: OneToOne)
    requires
        2 * n + 1 <= usize::MAX,
        m >= 1,
    ensures
        w.wf(),
        w.pairs() == n as nat,
        w.messages() == m,
{
    OneToOne::new(n, m, || crossbeam_unbounded_pair())
}

/// A one-to-one workload over crossbeam::channel::bounded with the standard
/// bounded capacity.
pub fn new_bounded(n: usize, m: u64) -> (w: OneToOne)
    requires
        2 * n + 1 <= usize::MAX,
        m >= 1,
    ensures
        w.wf(),
        w.pairs() == n as nat,
        w.messages() == m,
{
    OneToOne::new(n, m, || crossbeam_bounded_pair(BOUNDED_CAPACITY))
}

/// `n` shared handles to one producer endpoint, for the producers of a
/// many-to-one workload to own.
fn shared_senders(sender: &ProducerHandle, n: usize) -> (v: Vec<ProducerHandle>)
    ensures
        v@.len() == n,
{
    let mut v: Vec<ProducerHandle> = Vec::new();
    let mut i: usize = 0;
    while i < n
        invariant
            i <= n,
            v@.len() == i,
        decreases n - i,
    {
        v.push(sender.share());
        i = i + 1;
    }
    v
}

/// A many-to-one workload over std::sync::mpsc::sync_channel with the
/// standard bounded capacity: `n` producers share one sender.
pub fn new_many_to_one_sync_channel(n: usize, m: u64) -> (w: ManyToOne)
    requires
        n + 2 <= usize::MAX,
        m >= 1,
        (m as int / MANY_TO_ONE_DIVISOR as int) * (n as int) <= u64::MAX,
    ensures
        w.wf(),
        w.producers() == n as nat,
        w.messages() == m,
{
    let pair = mpsc_sync_pair(BOUNDED_CAPACITY);
    let ChannelPair { sender, receiver } = pair;
    let senders = shared_senders(&sender, n);
    ManyToOne::new(senders, receiver, m)
}

/// A many-to-one workload over flume::bounded with the standard bounded
/// capacity: `n` producers share one sender.
pub fn new_many_to_one_bounded(n: usize, m: u64) -> (w: ManyToOne)
    requires
        n + 2 <= usize::MAX,
        m >= 1,
        (m as int / MANY_TO_ONE_DIVISOR as int) * (n as int) <= u64::MAX,
    ensures
        w.wf(),
        w.producers() == n as nat,
        w.messages() == m,
{
    let pair = flume_bounded_pair(BOUNDED_CAPACITY);
    let ChannelPair { sender, receiver } = pair;
    let senders = shared_senders(&sender, n);
    ManyToOne::new(senders, receiver, m)
}

} // verus!
