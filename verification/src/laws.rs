use vstd::prelude::*;
use crate::model::{apply_increments, iterate_steps, seq_sum, unit_messages};
use crate::params::{MANY_TO_ONE_DIVISOR, MESSAGE};
use crate::workload::{many_to_one_report, mutex_report, one_to_one_report, MutexReport, RunReport};

verus! {

/// A stream of unit messages sums to its own length: a consumer that received
/// only [`MESSAGE`] holds an accumulator equal to its delivery count.
pub proof fn lemma_unit_stream_sum(k: nat)
    ensures
        unit_messages(k).len() == k,
        seq_sum(unit_messages(k)) == k,
    decreases k,
{
    if k > 0 {
        lemma_unit_stream_sum((k - 1) as nat);
        assert(unit_messages(k).drop_last() =~= unit_messages((k - 1) as nat));
    }
}

/// Every pair of a one-to-one run delivers exactly `m` messages, and when the
/// messages a consumer received are all the unit message — which is all its
/// pair's producer ever sends — its accumulator equals `m`, while its pair's
/// producer returned the accumulator zero: the join results are `m` at every
/// consumer and zero at every producer.
pub proof fn lemma_one_to_one_accumulator(n: nat, m: u64, rep: RunReport, p: int)
    requires
        one_to_one_report(n, m, rep),
        0 <= p < n,
        forall|i: int|
            0 <= i < rep.messages@[2 * p + 1].len() ==> #[trigger] rep.messages@[2 * p + 1][i]
                == MESSAGE,
    ensures
        rep.messages@[2 * p + 1].len() == m,
        rep.outcomes@[2 * p + 1] == m,
        rep.outcomes@[2 * p] == 0,
{
    let vs = rep.messages@[2 * p + 1];
    assert(vs =~= unit_messages(vs.len()));
    lemma_unit_stream_sum(vs.len());
}

/// A many-to-one run delivers exactly `n * (m / 10)` messages to its one
/// consumer, and when the messages it received are all the unit message —
/// which is all any producer ever sends — its accumulator equals
/// `n * (m / 10)`.
pub proof fn lemma_many_to_one_accumulator(n: nat, m: u64, rep: RunReport)
    requires
        many_to_one_report(n, m, rep),
        forall|i: int|
            0 <= i < rep.messages@[0].len() ==> #[trigger] rep.messages@[0][i] == MESSAGE,
    ensures
        rep.messages@[0].len() == (m as int / MANY_TO_ONE_DIVISOR as int) * n,
        rep.outcomes@[0] as int == (m as int / MANY_TO_ONE_DIVISOR as int) * n,
        forall|p: int| 1 <= p <= n ==> #[trigger] rep.outcomes@[p] == 0,
{
    let vs = rep.messages@[0];
    assert(vs =~= unit_messages(vs.len()));
    lemma_unit_stream_sum(vs.len());
}

/// A run of increments raises the counter by exactly their number.
pub proof fn lemma_apply_increments_adds(v: nat, k: nat)
    ensures
        apply_increments(v, k) == v + k,
    decreases k,
{
    if k > 0 {
        lemma_apply_increments_adds(v + 1, (k - 1) as nat);
    }
}

/// The counter step reaches exactly `v + k` after `k` applications whenever
/// that fits the counter width: the executable increment agrees with the
/// abstract model that adds one per application.
pub proof fn lemma_counter_step_iterates(v: u64, k: nat)
    requires
        v + k <= u64::MAX,
    ensures
        iterate_steps(v, k) == Some(((v + k) as u64)),
        apply_increments(v as nat, k) == v + k,
    decreases k,
{
    lemma_apply_increments_adds(v as nat, k);
    if k > 0 {
        lemma_counter_step_iterates((v + 1) as u64, (k - 1) as nat);
    }
}

/// A mutex run performs exactly `n * m` lock-protected increments — `m` per
/// locker — and `n * m` increments leave a counter started at zero holding
/// exactly `n * m`, however the lockers' acquisitions interleave.
pub proof fn lemma_mutex_counter_total(n: nat, m: u64, rep: MutexReport)
    requires
        mutex_report(n, m, rep),
        n * (m as nat) <= u64::MAX,
    ensures
        seq_sum(rep.increments@) == n * m,
        iterate_steps(0, n * (m as nat)) == Some(((n * (m as nat)) as u64)),
        apply_increments(0, n * (m as nat)) == n * m,
{
    lemma_counter_step_iterates(0, n * (m as nat));
    lemma_seq_sum_all_equal(rep.increments@, m);
}

/// A sequence of `k` equal values sums to `k` times the value.
pub proof fn lemma_seq_sum_all_equal(vs: Seq<u64>, m: u64)
    requires
        forall|i: int| 0 <= i < vs.len() ==> #[trigger] vs[i] == m,
    ensures
        seq_sum(vs) == vs.len() * m,
    decreases vs.len(),
{
    if vs.len() > 0 {
        lemma_seq_sum_all_equal(vs.drop_last(), m);
        assert((vs.len() - 1) * m + m == vs.len() * m) by (nonlinear_arith);
    }
}

/// Rebuilding a workload from the same parameters and starting it again
/// yields the same post-conditions: everything a successful one-to-one report
/// guarantees — the worker population and every producer outcome and delivery
/// count — is a function of `n` and `m` alone, so two runs agree on all of
/// it.
pub proof fn lemma_one_to_one_rerun(n: nat, m: u64, first: RunReport, second: RunReport)
    requires
        one_to_one_report(n, m, first),
        one_to_one_report(n, m, second),
    ensures
        first.outcomes@.len() == second.outcomes@.len(),
        forall|p: int|
            0 <= p < n ==> #[trigger] first.outcomes@[2 * p] == second.outcomes@[2 * p],
        forall|p: int|
            0 <= p < n ==> #[trigger] first.messages@[2 * p + 1].len() == second.messages@[2 * p
                + 1].len(),
{
}

/// The same, for a many-to-one workload: two successful reports from the same
/// `n` and `m` agree on the consumer's delivery count and on every producer
/// outcome.
pub proof fn lemma_many_to_one_rerun(n: nat, m: u64, first: RunReport, second: RunReport)
    requires
        many_to_one_report(n, m, first),
        many_to_one_report(n, m, second),
    ensures
        first.outcomes@.len() == second.outcomes@.len(),
        first.messages@[0].len() == second.messages@[0].len(),
        forall|p: int| 1 <= p <= n ==> #[trigger] first.outcomes@[p] == second.outcomes@[p],
{
    assert forall|p: int| 1 <= p <= n implies #[trigger] first.outcomes@[p]
        == second.outcomes@[p] by {
        assert(first.outcomes@[p] == 0);
        assert(second.outcomes@[p] == 0);
    }
}

/// The same, for a mutex workload: two successful reports from the same `n`
/// and `m` carry identical increment counts.
pub proof fn lemma_mutex_rerun(n: nat, m: u64, first: MutexReport, second: MutexReport)
    requires
        mutex_report(n, m, first),
        mutex_report(n, m, second),
    ensures
        first.increments@ == second.increments@,
{
    assert(first.increments@ =~= second.increments@);
}

} // verus!
