use async_bench::barrier::StartBarrier;
use async_bench::channel::{flume_bounded_pair, mpsc_pair, ChannelPair};
use async_bench::counter::SharedCounter;
use async_bench::params::MESSAGE;
use std::time::{Duration, Instant};
use async_bench::factories::{
    new_bounded, new_many_to_one_bounded, new_many_to_one_sync_channel, new_one_to_one_bounded,
    new_one_to_one_channel, new_one_to_one_sync_channel, new_one_to_one_unbounded, new_unbounded,
};
use async_bench::worker::{run_consumer, run_producer};
use async_bench::workload::{MutexBench, OneToOne};

#[test]
fn one_to_one_blocking_unbounded_single_pair() {
    // One pair over an unbounded blocking channel, one hundred messages:
    // the producer returns the accumulator zero, the consumer sum is exactly
    // one hundred, and the run reports a time.
    let w = new_one_to_one_channel(1, 100);
    let rep = w.start().unwrap();
    assert_eq!(rep.outcomes, vec![0, 100]);
    assert!(rep.elapsed_nanos < u128::MAX);
}

#[test]
fn one_to_one_blocking_bounded_small_capacity() {
    // Two pairs over bounded channels of capacity four: backpressure stalls
    // the producers, yet both consumer sums reach one thousand and the total
    // message count is two thousand.
    let w = OneToOne::new(2, 1000, || flume_bounded_pair(4));
    let rep = w.start().unwrap();
    assert_eq!(rep.outcomes.len(), 4);
    assert_eq!(rep.outcomes[0], 0);
    assert_eq!(rep.outcomes[2], 0);
    assert_eq!(rep.outcomes[1], 1000);
    assert_eq!(rep.outcomes[3], 1000);
    let total: u64 = rep.outcomes[1] + rep.outcomes[3];
    assert_eq!(total, 2000);
}

#[test]
fn one_to_one_every_blocking_factory_delivers() {
    for w in [
        new_one_to_one_channel(1, 50),
        new_one_to_one_sync_channel(1, 50),
        new_one_to_one_unbounded(1, 50),
        new_one_to_one_bounded(1, 50),
        new_unbounded(1, 50),
        new_bounded(1, 50),
    ] {
        let rep = w.start().unwrap();
        assert_eq!(rep.outcomes, vec![0, 50]);
    }
}

#[test]
fn one_to_one_empty_population() {
    // With no pairs the handle is empty: the run waits on a barrier of
    // capacity one and returns at once.
    let w = new_one_to_one_channel(0, 5);
    let rep = w.start().unwrap();
    assert_eq!(rep.outcomes.len(), 0);
}

#[test]
fn many_to_one_blocking_sync_channel() {
    // Four producers with a budget of one thousand each send a tenth of it:
    // one hundred messages apiece, so the consumer receives and sums exactly
    // four hundred unit messages.
    let w = new_many_to_one_sync_channel(4, 1000);
    let rep = w.start().unwrap();
    assert_eq!(rep.outcomes.len(), 5);
    assert_eq!(rep.outcomes[0], 400);
    assert_eq!(&rep.outcomes[1..], &[0, 0, 0, 0]);
}

#[test]
fn many_to_one_blocking_flume() {
    let w = new_many_to_one_bounded(8, 100);
    let rep = w.start().unwrap();
    assert_eq!(rep.outcomes.len(), 9);
    assert_eq!(rep.outcomes[0], 80);
}

#[test]
fn mutex_blocking_counter_reaches_the_full_total() {
    // Four lockers of one thousand increments each: the counter ends at four
    // thousand exactly.
    let w = MutexBench::new(4, 1000);
    let rep = w.start().unwrap();
    assert_eq!(rep.increments, vec![1000, 1000, 1000, 1000]);
    assert_eq!(rep.final_count, 4000);
}

#[test]
fn start_on_a_fresh_handle_repeats_the_postconditions() {
    // A handle runs once; rebuilding it from the same parameters and starting
    // again yields the same post-conditions.
    let first = new_one_to_one_channel(2, 100).start().unwrap();
    let second = new_one_to_one_channel(2, 100).start().unwrap();
    assert_eq!(first.outcomes, second.outcomes);
    assert_eq!(first.outcomes, vec![0, 100, 0, 100]);
    let third = MutexBench::new(3, 200).start().unwrap();
    let fourth = MutexBench::new(3, 200).start().unwrap();
    assert_eq!(third.final_count, 600);
    assert_eq!(fourth.final_count, 600);
}

#[test]
fn channel_endpoints_carry_messages_in_order() {
    // The endpoints hand over the very values that were sent, first in first
    // out; a released start barrier gates the operations.
    let ChannelPair { sender, receiver } = mpsc_pair();
    let started = StartBarrier::new(1).wait();
    sender.send(5, &started).unwrap();
    sender.send(7, &started).unwrap();
    sender.send(11, &started).unwrap();
    assert_eq!(receiver.recv(&started).unwrap(), 5);
    assert_eq!(receiver.recv(&started).unwrap(), 7);
    assert_eq!(receiver.recv(&started).unwrap(), 11);
}

#[test]
fn dropped_consumer_surfaces_a_disconnection() {
    let ChannelPair { sender, receiver } = flume_bounded_pair(4);
    let started = StartBarrier::new(1).wait();
    drop(receiver);
    assert!(sender.send(1, &started).is_err());
}

#[test]
fn dropped_producer_surfaces_a_disconnection() {
    let ChannelPair { sender, receiver } = mpsc_pair();
    let started = StartBarrier::new(1).wait();
    sender.send(3, &started).unwrap();
    drop(sender);
    assert_eq!(receiver.recv(&started).unwrap(), 3);
    assert!(receiver.recv(&started).is_err());
}

#[test]
fn shared_counter_counts_through_every_handle() {
    let counter = SharedCounter::new();
    assert_eq!(counter.load().unwrap(), 0);
    let started = StartBarrier::new(1).wait();
    assert_eq!(counter.fetch_increment(&started).unwrap(), 1);
    let other = counter.share();
    assert_eq!(other.fetch_increment(&started).unwrap(), 2);
    assert_eq!(counter.load().unwrap(), 2);
}

#[test]
fn worker_bodies_transfer_the_full_count() {
    let ChannelPair { sender, receiver } = mpsc_pair();
    let started = StartBarrier::new(1).wait();
    let (acc, _) = run_producer(&sender, 5, &started);
    assert_eq!(acc.unwrap(), 0);
    let (sum, _) = run_consumer(&receiver, 5, &started);
    assert_eq!(sum.unwrap(), 5);
}

#[test]
fn many_to_one_with_no_producers_is_empty() {
    let w = new_many_to_one_sync_channel(0, 100);
    let rep = w.start().unwrap();
    assert_eq!(rep.outcomes, vec![0]);
}

#[test]
fn one_to_one_single_message() {
    let w = new_one_to_one_unbounded(1, 1);
    let rep = w.start().unwrap();
    assert_eq!(rep.outcomes, vec![0, 1]);
}

#[test]
fn many_to_one_budget_below_the_divisor_sends_nothing() {
    // With m under ten every producer's quota is zero: the consumer is owed
    // nothing and the run ends at once.
    let w = new_many_to_one_bounded(3, 9);
    let rep = w.start().unwrap();
    assert_eq!(rep.outcomes, vec![0, 0, 0, 0]);
}

#[test]
fn consumer_accumulator_overflow_is_fatal() {
    // Values near the counter width make the accumulator overflow: the
    // consumer stops with the overflow error instead of wrapping.
    let ChannelPair { sender, receiver } = mpsc_pair();
    let started = StartBarrier::new(1).wait();
    sender.send(u64::MAX, &started).unwrap();
    sender.send(u64::MAX, &started).unwrap();
    let (sum, _) = run_consumer(&receiver, 2, &started);
    assert!(sum.is_err());
}

#[test]
fn no_worker_operates_before_the_barrier_releases() {
    // A worker parks at the start barrier while the driver stalls; the
    // worker's first operation can only happen after the driver has reached
    // the barrier, so its timestamp lies after the driver's delay.
    let barrier = StartBarrier::new(2);
    let worker_barrier = barrier.share();
    let ChannelPair { sender, receiver } = mpsc_pair();
    let worker = async_std::task::spawn_blocking(move || {
        let started = worker_barrier.wait();
        let first_operation = Instant::now();
        sender.send(MESSAGE, &started).unwrap();
        first_operation
    });
    let stall = Instant::now();
    while stall.elapsed() < Duration::from_millis(100) {
        // The driver holds the release back.
    }
    let driver_arrival = Instant::now();
    let started = barrier.wait();
    let first_operation = async_std::task::block_on(worker);
    assert!(first_operation >= driver_arrival);
    assert_eq!(receiver.recv(&started).unwrap(), MESSAGE);
}
