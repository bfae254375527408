use vstd::prelude::*;

verus! {

/// Queue depth that the bounded channel factories use.
pub const BOUNDED_CAPACITY: usize = 1024;

/// A cooperative producer yields to its scheduler at every iteration whose
/// index is a multiple of this stride.
pub const YIELD_STRIDE: u64 = 256;

/// Each producer of a many-to-one workload sends `m / MANY_TO_ONE_DIVISOR`
/// messages, so that total traffic still grows with the producer count while
/// wall-clock time stays within one measurement budget.
pub const MANY_TO_ONE_DIVISOR: u64 = 10;

/// The value every producer sends; consumers sum what they receive.
pub const MESSAGE: u64 = 1;

/// Participants of a one-to-one start barrier: `n` producers, `n` consumers
/// and the driver.
pub open spec fn one_to_one_participants(n: nat) -> nat {
    2 * n + 1
}

/// Participants of a many-to-one start barrier: `n` producers, one consumer
/// and the driver.
pub open spec fn many_to_one_participants(n: nat) -> nat {
    n + 2
}

/// Participants of a mutex-workload start barrier: `n` lockers and the driver.
pub open spec fn mutex_participants(n: nat) -> nat {
    n + 1
}

/// How many messages each producer of a many-to-one workload sends.
pub fn producer_quota(m: u64) -> (r: u64)
    ensures
        r == m as int / MANY_TO_ONE_DIVISOR as int,
{
    m / MANY_TO_ONE_DIVISOR
}

/// Whether a cooperative producer must yield after iteration `i`.
pub open spec fn yield_point(i: u64) -> bool {
    i % (YIELD_STRIDE as u64) == 0
}

/// Decides, by the bit mask the producers use, whether a cooperative producer
/// yields after iteration `i`; yielding every [`YIELD_STRIDE`] iterations keeps
/// a consumer that shares the producer's scheduler thread from starving.
pub fn should_yield(i: u64) -> (r: bool)
    ensures
        r == yield_point(i),
{
    let r = i & 0xff == 0;
    proof {
        assert((i & 0xff == 0) == (i % 256 == 0)) by (bit_vector);
    }
    r
}

/// What one lock-protected increment does to the counter value it found:
/// the next value, or nothing when the width is exhausted.
pub open spec fn counter_step_spec(v: u64) -> Option<u64> {
    if v < u64::MAX {
        Some((v + 1) as u64)
    } else {
        None
    }
}

/// One increment of the shared counter, applied to the value the lock
/// exposed; `None` reports exhaustion of the counter width.
pub fn counter_step(v: u64) -> (r: Option<u64>)
    ensures
        r == counter_step_spec(v),
{
    if v < u64::MAX {
        Some(v + 1)
    } else {
        None
    }
}

} // verus!
