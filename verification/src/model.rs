use vstd::prelude::*;
use crate::params::{counter_step_spec, MESSAGE};

verus! {

/// The sum of a sequence of messages, as the consumer accumulates it.
pub open spec fn seq_sum(s: Seq<u64>) -> int
    decreases s.len(),
{
    if s.len() == 0 {
        0
    } else {
        seq_sum(s.drop_last()) + s.last()
    }
}

/// The stream a producer emits: `k` copies of [`MESSAGE`].
pub open spec fn unit_messages(k: nat) -> Seq<u64> {
    Seq::new(k, |i: int| MESSAGE)
}

/// The counter value after `k` further lock-protected increments, however the
/// increments of different lockers interleave: each one raises the value by
/// one under the lock.
pub open spec fn apply_increments(v: nat, k: nat) -> nat
    decreases k,
{
    if k == 0 {
        v
    } else {
        apply_increments(v + 1, (k - 1) as nat)
    }
}

/// The value an uncontended counter would reach by applying the counter step
/// `k` times from `v`, or nothing once the width is exhausted.
pub open spec fn iterate_steps(v: u64, k: nat) -> Option<u64>
    decreases k,
{
    if k == 0 {
        Some(v)
    } else {
        match counter_step_spec(v) {
            Some(next) => iterate_steps(next, (k - 1) as nat),
            None => None,
        }
    }
}

/// Appending one message grows the sum by that message.
pub proof fn lemma_seq_sum_push(s: Seq<u64>, v: u64)
    ensures
        seq_sum(s.push(v)) == seq_sum(s) + v,
{
    assert(s.push(v).drop_last() =~= s);
}

} // verus!
