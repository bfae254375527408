use vstd::prelude::*;
use crate::spawner::{join_worker, spawn_worker, worker_promise, WorkerHandle, WorkerReport};
use crate::barrier::StartBarrier;
use crate::channel::{ChannelPair, ConsumerHandle, ProducerHandle};
use crate::clock::{clock_now, clock_since, duration_nanos};
use crate::counter::SharedCounter;
use crate::error::BenchError;
use crate::model::{seq_sum, unit_messages};
use crate::params::{
    many_to_one_participants, mutex_participants, one_to_one_participants, producer_quota,
    MANY_TO_ONE_DIVISOR,
};
use crate::worker::{run_consumer, run_locker, run_producer};

verus! {

/// What one worker of a workload is charged with.
pub enum WorkerRole {
    /// Sends `count` messages into its channel.
    Producer { count: u64 },
    /// Receives `count` messages from its channel and sums them.
    Consumer { count: u64 },
    /// Raises the shared counter by one, `count` times, under its lock.
    Locker { count: u64 },
}

/// A successful worker's report under its role: a producer returns the
/// accumulator zero while its ghost record shows it sent its count of unit
/// messages and nothing else; a consumer received exactly its count of
/// messages and reports their sum; a locker reports exactly its operation
/// count.
pub open spec fn outcome_ok(role: WorkerRole, v: u64, vs: Seq<u64>) -> bool {
    match role {
        WorkerRole::Producer { count } => v == 0 && vs == unit_messages(count as nat),
        WorkerRole::Consumer { count } => vs.len() == count && v as int == seq_sum(vs),
        WorkerRole::Locker { count } => v == count,
    }
}

/// The failures a worker of the given role can surface.
pub open spec fn role_error(role: WorkerRole, e: BenchError) -> bool {
    match role {
        WorkerRole::Producer { .. } => e == BenchError::Disconnected,
        WorkerRole::Consumer { .. } => e == BenchError::Disconnected || e == BenchError::Overflow,
        WorkerRole::Locker { .. } => e == BenchError::Poisoned || e == BenchError::Overflow,
    }
}

/// The producer role with the given operation count.
pub open spec fn producer_role(count: u64) -> WorkerRole {
    WorkerRole::Producer { count }
}

/// The consumer role with the given operation count.
pub open spec fn consumer_role(count: u64) -> WorkerRole {
    WorkerRole::Consumer { count }
}

/// The locker role with the given operation count.
pub open spec fn locker_role(count: u64) -> WorkerRole {
    WorkerRole::Locker { count }
}

/// Everything a finished worker may report under its role.
pub open spec fn outcome_admissible(role: WorkerRole, r: WorkerReport) -> bool {
    &&& (r.0 matches Ok(v) ==> outcome_ok(role, v, r.1@))
    &&& (r.0 matches Err(e) ==> role_error(role, e))
}

/// What one timed run reports.
pub struct RunReport {
    /// Wall-clock time from the barrier's release to the last join, in
    /// nanoseconds.
    pub elapsed_nanos: u128,
    /// Every worker's returned value, in worker order: the accumulator zero
    /// from each producer, the accumulator of each consumer, the performed
    /// increment count of each locker.
    pub outcomes: Vec<u64>,
    /// The ghost record of the messages each worker sent or received, in
    /// worker order; empty for lockers.
    pub messages: Ghost<Seq<Seq<u64>>>,
}

/// A population of workers already spawned and parked at a common start
/// barrier, ready to be released and timed by one call to [`Workload::start`].
pub struct Workload {
    workers: Vec<WorkerHandle>,
    barrier: StartBarrier,
    roles: Ghost<Seq<WorkerRole>>,
}

impl Workload {
    /// The role of each worker, in spawn order.
    pub closed spec fn roles(self) -> Seq<WorkerRole> {
        self.roles@
    }

    /// How many participants the start barrier expects: every worker and the
    /// driver.
    pub closed spec fn participants(self) -> nat {
        self.barrier.participants()
    }

    /// The handle's invariant: the barrier expects every worker plus the
    /// driver, and each worker can only report what its role admits.
    pub closed spec fn wf(self) -> bool {
        &&& self.roles@.len() == self.workers@.len()
        &&& self.barrier.wf()
        &&& self.barrier.participants() == self.workers@.len() + 1
        &&& forall|i: int, r: WorkerReport|
            0 <= i < self.workers@.len() ==> #[trigger] worker_promise(self.workers@[i], r)
                ==> outcome_admissible(self.roles@[i], r)
    }

    /// Releases the start barrier as its last participant, which starts the
    /// clock, joins every worker in spawn order, and reports the wall time
    /// together with each worker's outcome. Consumes the handle: a workload
    /// runs exactly once, and a fresh one must be built for another run.
    /// Any worker failure is propagated instead of a measurement.
    pub fn start(self) -> (r: Result<RunReport, BenchError>)
        requires
            self.wf(),
        ensures
            r matches Ok(rep) ==> {
                &&& rep.outcomes@.len() == self.roles().len()
                &&& rep.messages@.len() == self.roles().len()
                &&& forall|i: int|
                    0 <= i < self.roles().len() ==> outcome_ok(
                        self.roles()[i],
                        #[trigger] rep.outcomes@[i],
                        rep.messages@[i],
                    )
            },
            r matches Err(e) ==> exists|i: int|
                0 <= i < self.roles().len() && role_error(#[trigger] self.roles()[i], e),
    {
        let Workload { mut workers, barrier, roles } = self;
        let _released = barrier.wait();
        let t_start = clock_now();
        let total = workers.len();
        let mut outcomes: Vec<u64> = Vec::new();
        let ghost mut messages: Seq<Seq<u64>> = Seq::empty();
        let mut i: usize = 0;
        while i < total
            invariant
                i <= total,
                workers@.len() == total - i,
                roles@.len() == total,
                roles@ == self.roles(),
                outcomes@.len() == i,
                messages.len() == i,
                forall|j: int, r: WorkerReport|
                    0 <= j < workers@.len() ==> #[trigger] worker_promise(workers@[j], r)
                        ==> outcome_admissible(roles@[i + j], r),
                forall|k: int|
                    0 <= k < i ==> outcome_ok(roles@[k], #[trigger] outcomes@[k], messages[k]),
            decreases total - i,
        {
            let handle = workers.remove(0);
            let (res, vs) = join_worker(handle);
            proof {
                assert(outcome_admissible(roles@[i as int], (res, vs)));
            }
            match res {
                Ok(v) => {
                    outcomes.push(v);
                    proof {
                        messages = messages.push(vs@);
                    }
                },
                Err(e) => {
                    proof {
                        assert(0 <= (i as int) && (i as int) < self.roles().len());
                        assert(role_error(self.roles()[i as int], e));
                    }
                    return Err(e);
                },
            }
            i = i + 1;
        }
        let t_end = clock_now();
        let wall = clock_since(&t_end, &t_start);
        Ok(RunReport { elapsed_nanos: duration_nanos(&wall), outcomes, messages: Ghost(messages) })
    }
}

/// The roles of a one-to-one workload: `n` pairs, the producer of each pair
/// just before its consumer, every count `m`.
pub open spec fn one_to_one_roles(n: nat, m: u64) -> Seq<WorkerRole> {
    Seq::new(
        2 * n,
        |i: int|
            if i % 2 == 0 {
                WorkerRole::Producer { count: m }
            } else {
                WorkerRole::Consumer { count: m }
            },
    )
}

/// The roles of a many-to-one workload over `n` producers: the consumer
/// first, charged with all `n * (m / 10)` messages, then the `n` producers
/// with `m / 10` each.
pub open spec fn many_to_one_roles(n: nat, m: u64) -> Seq<WorkerRole> {
    Seq::new(
        n + 1,
        |i: int|
            if i == 0 {
                WorkerRole::Consumer {
                    count: ((m as int / MANY_TO_ONE_DIVISOR as int) * n) as u64,
                }
            } else {
                WorkerRole::Producer {
                    count: (m as int / MANY_TO_ONE_DIVISOR as int) as u64,
                }
            },
    )
}

/// The roles of a mutex workload: `n` lockers, each charged with `m`
/// increments.
pub open spec fn mutex_roles(n: nat, m: u64) -> Seq<WorkerRole> {
    Seq::new(n, |i: int| WorkerRole::Locker { count: m })
}

/// Everything a successful one-to-one run guarantees of its report: `2 * n`
/// worker outcomes in pair order, every producer returning the accumulator
/// zero with a stream of exactly `m` unit messages, and every consumer's
/// accumulator the sum of exactly the `m` messages it received.
pub open spec fn one_to_one_report(n: nat, m: u64, rep: RunReport) -> bool {
    &&& rep.outcomes@.len() == 2 * n
    &&& rep.messages@.len() == 2 * n
    &&& forall|i: int|
        0 <= i < 2 * n && i % 2 == 0 ==> #[trigger] rep.outcomes@[i] == 0 && rep.messages@[i]
            == unit_messages(m as nat)
    &&& forall|i: int|
        0 <= i < 2 * n && i % 2 == 1 ==> #[trigger] rep.messages@[i].len() == m
            && rep.outcomes@[i] as int == seq_sum(rep.messages@[i])
}

/// Everything a successful many-to-one run guarantees of its report: the
/// consumer's outcome first, its accumulator the sum of exactly the
/// `n * (m / 10)` messages it received, then the `n` producers, each
/// returning the accumulator zero with a stream of exactly `m / 10` unit
/// messages.
pub open spec fn many_to_one_report(n: nat, m: u64, rep: RunReport) -> bool {
    &&& rep.outcomes@.len() == n + 1
    &&& rep.messages@.len() == n + 1
    &&& rep.messages@[0].len() == (m as int / MANY_TO_ONE_DIVISOR as int) * n
    &&& rep.outcomes@[0] as int == seq_sum(rep.messages@[0])
    &&& forall|p: int|
        1 <= p <= n ==> #[trigger] rep.outcomes@[p] == 0 && rep.messages@[p] == unit_messages(
            (m as int / MANY_TO_ONE_DIVISOR as int) as nat,
        )
}

/// Everything a successful mutex run guarantees of its report: `n` locker
/// outcomes, each the full increment count `m`.
pub open spec fn mutex_report(n: nat, m: u64, rep: MutexReport) -> bool {
    &&& rep.increments@.len() == n
    &&& forall|p: int| 0 <= p < n ==> #[trigger] rep.increments@[p] == m
}

/// A one-to-one workload: `n` independent producer/consumer pairs, each pair
/// over its own channel, each transferring `m` messages.
pub struct OneToOne {
    work: Workload,
    pairs: usize,
    messages: u64,
}

impl OneToOne {
    /// The number of producer/consumer pairs.
    pub closed spec fn pairs(self) -> nat {
        self.pairs as nat
    }

    /// The number of messages each pair transfers.
    pub closed spec fn messages(self) -> u64 {
        self.messages
    }

    /// How many participants the start barrier expects.
    pub closed spec fn participants(self) -> nat {
        self.work.participants()
    }

    pub closed spec fn wf(self) -> bool {
        &&& self.work.wf()
        &&& self.work.roles() == one_to_one_roles(self.pairs as nat, self.messages)
    }

    /// Builds the workload: a start barrier for `2 * n + 1` participants, and
    /// for each of the `n` pairs a fresh channel from the factory, one
    /// producer worker and one consumer worker, both already spawned and
    /// parked at the barrier.
    pub fn new<F: Fn() -> ChannelPair>(n: usize, m: u64, mkpair: F) -> (w: OneToOne)
        requires
            2 * n + 1 <= usize::MAX,
            m >= 1,
            mkpair.requires(()),
        ensures
            w.wf(),
            w.pairs() == n as nat,
            w.messages() == m,
            w.participants() == one_to_one_participants(n as nat),
    {
        let barrier = StartBarrier::new(2 * n + 1);
        let mut workers: Vec<WorkerHandle> = Vec::new();
        let mut i: usize = 0;
        while i < n
            invariant
                i <= n,
                2 * n + 1 <= usize::MAX,
                mkpair.requires(()),
                barrier.wf(),
                barrier.participants() == 2 * n + 1,
                workers@.len() == 2 * i,
                forall|j: int, r: WorkerReport|
                    0 <= j < workers@.len() ==> #[trigger] worker_promise(workers@[j], r)
                        ==> outcome_admissible(one_to_one_roles(n as nat, m)[j], r),
            decreases n - i,
        {
            let pair = mkpair();
            let ChannelPair { sender, receiver } = pair;
            let producer_barrier = barrier.share();
            let producer_body = move || -> (r: WorkerReport)
                ensures
                    outcome_admissible(producer_role(m), r),
                {
                    let started = producer_barrier.wait();
                    run_producer(&sender, m, &started)
                };
            let producer = spawn_worker(producer_body);
            workers.push(producer);
            let consumer_barrier = barrier.share();
            let consumer_body = move || -> (r: WorkerReport)
                ensures
                    outcome_admissible(consumer_role(m), r),
                {
                    let started = consumer_barrier.wait();
                    run_consumer(&receiver, m, &started)
                };
            let consumer = spawn_worker(consumer_body);
            workers.push(consumer);
            i = i + 1;
        }
        OneToOne {
            work: Workload {
                workers,
                barrier,
                roles: Ghost(one_to_one_roles(n as nat, m)),
            },
            pairs: n,
            messages: m,
        }
    }

    /// One timed run: every producer that succeeded sent exactly `m` unit
    /// messages and returned the accumulator zero, and every consumer that
    /// succeeded received exactly `m` messages and reports their sum. A
    /// failure is one a producer or a consumer can surface.
    pub fn start(self) -> (r: Result<RunReport, BenchError>)
        requires
            self.wf(),
        ensures
            r matches Ok(rep) ==> one_to_one_report(self.pairs(), self.messages(), rep),
            r matches Err(e) ==> e == BenchError::Disconnected || e == BenchError::Overflow,
    {
        let r = self.work.start();
        proof {
            if r is Err {
                let e = r->Err_0;
                let i = choose|i: int|
                    0 <= i < self.work.roles().len() && role_error(
                        #[trigger] self.work.roles()[i],
                        e,
                    );
                assert(role_error(self.work.roles()[i], e));
            }
            if r is Ok {
                let rep = r->Ok_0;
                assert forall|i: int|
                    0 <= i < 2 * self.pairs() && i % 2 == 0 implies #[trigger] rep.outcomes@[i]
                    == 0 && rep.messages@[i] == unit_messages(self.messages() as nat) by {
                    assert(outcome_ok(self.work.roles()[i], rep.outcomes@[i], rep.messages@[i]));
                }
                assert forall|i: int|
                    0 <= i < 2 * self.pairs() && i % 2 == 1 implies #[trigger] rep.messages@[i].len()
                    == self.messages() && rep.outcomes@[i] as int == seq_sum(rep.messages@[i]) by {
                    assert(outcome_ok(self.work.roles()[i], rep.outcomes@[i], rep.messages@[i]));
                }
            }
        }
        r
    }
}

/// A many-to-one workload: every given producer endpoint feeds the single
/// consumer over one shared channel; each producer sends `m / 10` messages.
pub struct ManyToOne {
    work: Workload,
    producers: usize,
    messages: u64,
}

impl ManyToOne {
    /// The number of producers.
    pub closed spec fn producers(self) -> nat {
        self.producers as nat
    }

    /// The message budget `m`; each producer sends a tenth of it.
    pub closed spec fn messages(self) -> u64 {
        self.messages
    }

    /// How many messages each producer sends.
    pub open spec fn quota(self) -> int {
        self.messages() as int / MANY_TO_ONE_DIVISOR as int
    }

    /// How many messages the consumer receives: every producer's quota.
    pub open spec fn total(self) -> int {
        self.quota() * self.producers()
    }

    /// How many participants the start barrier expects.
    pub closed spec fn participants(self) -> nat {
        self.work.participants()
    }

    pub closed spec fn wf(self) -> bool {
        &&& self.work.wf()
        &&& self.work.roles() == many_to_one_roles(self.producers as nat, self.messages)
        &&& self.total() <= u64::MAX
    }

    /// Builds the workload: a start barrier for `n + 2` participants (the
    /// consumer, the `n` producers and the driver), the consumer worker
    /// charged with `n * (m / 10)` receives, and one producer worker per
    /// given endpoint, each charged with `m / 10` sends; all spawned and
    /// parked at the barrier.
    pub fn new(senders: Vec<ProducerHandle>, receiver: ConsumerHandle, m: u64) -> (w: ManyToOne)
        requires
            senders@.len() + 2 <= usize::MAX,
            m >= 1,
            (m as int / MANY_TO_ONE_DIVISOR as int) * senders@.len() <= u64::MAX,
        ensures
            w.wf(),
            w.producers() == senders@.len(),
            w.messages() == m,
            w.participants() == many_to_one_participants(senders@.len()),
    {
        let mut senders = senders;
        let n = senders.len();
        let barrier = StartBarrier::new(n + 2);
        let quota = producer_quota(m);
        let total = quota * (n as u64);
        let mut workers: Vec<WorkerHandle> = Vec::new();
        let consumer_barrier = barrier.share();
        let consumer_body = move || -> (r: WorkerReport)
            ensures
                outcome_admissible(consumer_role(total), r),
            {
                let started = consumer_barrier.wait();
                run_consumer(&receiver, total, &started)
            };
        let consumer = spawn_worker(consumer_body);
        workers.push(consumer);
        proof {
            assert(many_to_one_roles(n as nat, m)[0] == (WorkerRole::Consumer { count: total }));
        }
        while senders.len() > 0
            invariant
                barrier.wf(),
                barrier.participants() == n + 2,
                quota == m as int / MANY_TO_ONE_DIVISOR as int,
                workers@.len() + senders@.len() == n + 1,
                workers@.len() >= 1,
                forall|j: int, r: WorkerReport|
                    0 <= j < workers@.len() ==> #[trigger] worker_promise(workers@[j], r)
                        ==> outcome_admissible(many_to_one_roles(n as nat, m)[j], r),
            decreases senders@.len(),
        {
            let tx = senders.pop().unwrap();
            let producer_barrier = barrier.share();
            let producer_body = move || -> (r: WorkerReport)
                ensures
                    outcome_admissible(producer_role(quota), r),
                {
                    let started = producer_barrier.wait();
                    run_producer(&tx, quota, &started)
                };
            let producer = spawn_worker(producer_body);
            workers.push(producer);
        }
        ManyToOne {
            work: Workload {
                workers,
                barrier,
                roles: Ghost(many_to_one_roles(n as nat, m)),
            },
            producers: n,
            messages: m,
        }
    }

    /// One timed run: the consumer, when it succeeded, received exactly
    /// `n * (m / 10)` messages and reports their sum; every producer that
    /// succeeded sent exactly `m / 10` unit messages and returned the
    /// accumulator zero. A failure is one a producer or a consumer can
    /// surface.
    pub fn start(self) -> (r: Result<RunReport, BenchError>)
        requires
            self.wf(),
        ensures
            r matches Ok(rep) ==> many_to_one_report(self.producers(), self.messages(), rep),
            r matches Err(e) ==> e == BenchError::Disconnected || e == BenchError::Overflow,
    {
        let r = self.work.start();
        proof {
            if r is Err {
                let e = r->Err_0;
                let i = choose|i: int|
                    0 <= i < self.work.roles().len() && role_error(
                        #[trigger] self.work.roles()[i],
                        e,
                    );
                assert(role_error(self.work.roles()[i], e));
            }
            if r is Ok {
                let rep = r->Ok_0;
                assert(outcome_ok(self.work.roles()[0], rep.outcomes@[0], rep.messages@[0]));
                assert forall|p: int|
                    1 <= p <= self.producers() implies #[trigger] rep.outcomes@[p] == 0
                    && rep.messages@[p] == unit_messages(self.quota() as nat) by {
                    assert(outcome_ok(self.work.roles()[p], rep.outcomes@[p], rep.messages@[p]));
                }
            }
        }
        r
    }
}

/// What one timed mutex run reports.
pub struct MutexReport {
    /// Wall-clock time from the barrier's release to the last join, in
    /// nanoseconds.
    pub elapsed_nanos: u128,
    /// Each locker's performed increment count, in worker order.
    pub increments: Vec<u64>,
    /// The value the shared counter held after the last join.
    pub final_count: u64,
}

/// A mutex workload: `n` lockers contending for one counter behind a blocking
/// mutex, each raising it `m` times.
pub struct MutexBench {
    work: Workload,
    counter: SharedCounter,
    lockers: usize,
    messages: u64,
}

impl MutexBench {
    /// The number of lockers.
    pub closed spec fn lockers(self) -> nat {
        self.lockers as nat
    }

    /// The number of increments each locker performs.
    pub closed spec fn messages(self) -> u64 {
        self.messages
    }

    /// How many participants the start barrier expects.
    pub closed spec fn participants(self) -> nat {
        self.work.participants()
    }

    /// The value the shared counter was constructed holding.
    pub closed spec fn counter_initial(self) -> u64 {
        self.counter.initial()
    }

    pub closed spec fn wf(self) -> bool {
        &&& self.work.wf()
        &&& self.work.roles() == mutex_roles(self.lockers as nat, self.messages)
        &&& self.counter.initial() == 0
    }

    /// Builds the workload: one shared counter at zero, a start barrier for
    /// `n + 1` participants, and `n` locking workers, each charged with `m`
    /// increments, spawned and parked at the barrier. The counter width must
    /// accommodate the configured maximum of `n * m`.
    pub fn new(n: usize, m: u64) -> (w: MutexBench)
        requires
            n + 1 <= usize::MAX,
            m >= 1,
            (n as int) * (m as int) <= u64::MAX,
        ensures
            w.wf(),
            w.lockers() == n as nat,
            w.messages() == m,
            w.participants() == mutex_participants(n as nat),
            w.counter_initial() == 0,
    {
        let counter = SharedCounter::new();
        let barrier = StartBarrier::new(n + 1);
        let mut workers: Vec<WorkerHandle> = Vec::new();
        let mut i: usize = 0;
        while i < n
            invariant
                i <= n,
                n + 1 <= usize::MAX,
                barrier.wf(),
                barrier.participants() == n + 1,
                workers@.len() == i,
                forall|j: int, r: WorkerReport|
                    0 <= j < workers@.len() ==> #[trigger] worker_promise(workers@[j], r)
                        ==> outcome_admissible(mutex_roles(n as nat, m)[j], r),
            decreases n - i,
        {
            let locker_barrier = barrier.share();
            let locker_counter = counter.share();
            let locker_body = move || -> (r: WorkerReport)
                ensures
                    outcome_admissible(locker_role(m), r),
                {
                    let started = locker_barrier.wait();
                    let done = run_locker(&locker_counter, m, &started);
                    (done, Ghost(Seq::empty()))
                };
            let locker = spawn_worker(locker_body);
            workers.push(locker);
            i = i + 1;
        }
        MutexBench {
            work: Workload {
                workers,
                barrier,
                roles: Ghost(mutex_roles(n as nat, m)),
            },
            counter,
            lockers: n,
            messages: m,
        }
    }

    /// One timed run: every locker that succeeded performed exactly `m`
    /// lock-protected increments of the counter, which was constructed at
    /// zero, and the report carries the counter value found after the last
    /// join. A failure is one a locker or the final read can surface.
    pub fn start(self) -> (r: Result<MutexReport, BenchError>)
        requires
            self.wf(),
        ensures
            r matches Ok(rep) ==> mutex_report(self.lockers(), self.messages(), rep),
            r matches Err(e) ==> e == BenchError::Poisoned || e == BenchError::Overflow,
    {
        let counter = self.counter.share();
        let ghost roles = self.work.roles();
        let ghost lockers = self.lockers();
        let ghost messages = self.messages();
        let run = self.work.start();
        proof {
            if run is Err {
                let e = run->Err_0;
                let i = choose|i: int|
                    0 <= i < self.work.roles().len() && role_error(
                        #[trigger] self.work.roles()[i],
                        e,
                    );
                assert(role_error(self.work.roles()[i], e));
            }
        }
        match run {
            Ok(rep) => {
                proof {
                    assert forall|p: int| 0 <= p < lockers implies #[trigger] rep.outcomes@[p]
                        == messages by {
                        assert(outcome_ok(roles[p], rep.outcomes@[p], rep.messages@[p]));
                    }
                }
                let final_count = match counter.load() {
                    Ok(v) => v,
                    Err(e) => {
                        return Err(e);
                    },
                };
                Ok(MutexReport {
                    elapsed_nanos: rep.elapsed_nanos,
                    increments: rep.outcomes,
                    final_count,
                })
            },
            Err(e) => Err(e),
        }
    }
}

} // verus!
