use vstd::prelude::*;
use crate::barrier::StartGuard;
use crate::channel::{ConsumerHandle, ProducerHandle};
use crate::counter::SharedCounter;
use crate::error::BenchError;
use crate::model::{lemma_seq_sum_push, seq_sum, unit_messages};
use crate::params::MESSAGE;

verus! {

/// The body of a producer worker: after the start barrier has released, send
/// [`MESSAGE`] exactly `count` times and return the accumulator zero, as a
/// worker that only sends accumulates nothing. On success the ghost half of
/// the result records that the stream sent was exactly `count` copies of the
/// unit message; any failed send is fatal.
pub fn run_producer(tx: &ProducerHandle, count: u64, started: &StartGuard) -> (r: (
    Result<u64, BenchError>,
    Ghost<Seq<u64>>,
))
    ensures
        r.0 matches Ok(acc) ==> acc == 0 && r.1@ == unit_messages(count as nat),
        r.0 matches Err(e) ==> e == BenchError::Disconnected,
{
    let ghost mut sent: Seq<u64> = Seq::empty();
    let mut i: u64 = 0;
    while i < count
        invariant
            i <= count,
            sent.len() == i,
            forall|k: int| 0 <= k < sent.len() ==> #[trigger] sent[k] == MESSAGE,
        decreases count - i,
    {
        match tx.send(MESSAGE, started) {
            Ok(()) => {},
            Err(e) => {
                return (Err(e), Ghost(sent));
            },
        }
        proof {
            sent = sent.push(MESSAGE);
        }
        i = i + 1;
    }
    proof {
        assert(sent =~= unit_messages(count as nat));
    }
    (Ok(0), Ghost(sent))
}

/// The body of a consumer worker: after the start barrier has released,
/// receive exactly `count` messages and sum them. On success the returned
/// accumulator is exactly the sum of the `count` messages received, which the
/// ghost half of the result records; any failed receive is fatal, and so is
/// an accumulator overflow.
pub fn run_consumer(rx: &ConsumerHandle, count: u64, started: &StartGuard) -> (r: (
    Result<u64, BenchError>,
    Ghost<Seq<u64>>,
))
    ensures
        r.0 matches Ok(total) ==> r.1@.len() == count && total as int == seq_sum(r.1@),
        r.0 matches Err(e) ==> e == BenchError::Disconnected || e == BenchError::Overflow,
{
    let mut acc: u64 = 0;
    let ghost mut received: Seq<u64> = Seq::empty();
    let mut i: u64 = 0;
    while i < count
        invariant
            i <= count,
            received.len() == i,
            acc as int == seq_sum(received),
        decreases count - i,
    {
        let v: u64 = match rx.recv(started) {
            Ok(v) => v,
            Err(e) => {
                return (Err(e), Ghost(received));
            },
        };
        if acc > u64::MAX - v {
            return (Err(BenchError::Overflow), Ghost(received));
        }
        proof {
            lemma_seq_sum_push(received, v);
            received = received.push(v);
        }
        acc = acc + v;
        i = i + 1;
    }
    (Ok(acc), Ghost(received))
}

/// The body of a locking worker: after the start barrier has released,
/// acquire the shared counter's lock `count` times, raising the counter by
/// one under each acquisition. Returns the number of increments performed,
/// which on success is exactly `count`; a poisoned mutex and an exhausted
/// counter width are fatal.
pub fn run_locker(counter: &SharedCounter, count: u64, started: &StartGuard) -> (r: Result<
    u64,
    BenchError,
>)
    ensures
        r matches Ok(done) ==> done == count,
        r matches Err(e) ==> e == BenchError::Poisoned || e == BenchError::Overflow,
{
    let mut i: u64 = 0;
    while i < count
        invariant
            i <= count,
        decreases count - i,
    {
        match counter.fetch_increment(started) {
            Ok(_) => {},
            Err(e) => {
                return Err(e);
            },
        }
        i = i + 1;
    }
    Ok(count)
}

} // verus!
