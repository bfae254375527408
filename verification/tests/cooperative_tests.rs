use async_bench::params::{counter_step, producer_quota, should_yield, MESSAGE};
use std::sync::Arc;

#[test]
fn many_to_one_cooperative_bounded() {
    // Eight cooperative producers with a budget of ten thousand each send a
    // tenth of it into one bounded channel: the consumer sums exactly eight
    // thousand unit messages.
    let n: usize = 8;
    let m: u64 = 10000;
    let quota: u64 = producer_quota(m);
    let total: u64 = quota * (n as u64);
    async_std::task::block_on(async move {
        let (tx, rx) = async_std::channel::bounded::<u64>(1024);
        let barrier = Arc::new(async_barrier::Barrier::new(n + 2));
        let mut handles = Vec::new();
        let bar = barrier.clone();
        handles.push(async_std::task::spawn(async move {
            bar.wait().await;
            let mut sum: u64 = 0;
            let mut i: u64 = 0;
            while i < total {
                sum += rx.recv().await.unwrap();
                i += 1;
            }
            sum
        }));
        for _ in 0..n {
            let bar = barrier.clone();
            let ch = tx.clone();
            handles.push(async_std::task::spawn(async move {
                bar.wait().await;
                let mut i: u64 = 0;
                while i < quota {
                    ch.send(MESSAGE).await.unwrap();
                    if should_yield(i) {
                        async_std::task::yield_now().await;
                    }
                    i += 1;
                }
                0
            }));
        }
        barrier.wait().await;
        let mut results: Vec<u64> = Vec::new();
        for h in handles {
            results.push(h.await);
        }
        assert_eq!(results[0], 8000);
    });
}

#[test]
fn mutex_cooperative_counter_reaches_the_full_total() {
    // Four cooperative lockers of one thousand increments each: the counter
    // ends at four thousand exactly.
    let n: usize = 4;
    let m: u64 = 1000;
    let rt = tokio::runtime::Builder::new_multi_thread().worker_threads(4).build().unwrap();
    rt.block_on(async move {
        let barrier = Arc::new(async_barrier::Barrier::new(n + 1));
        let shared = Arc::new(tokio::sync::Mutex::new(0u64));
        let mut handles = Vec::new();
        for _ in 0..n {
            let bar = barrier.clone();
            let counter = shared.clone();
            handles.push(tokio::task::spawn(async move {
                bar.wait().await;
                let mut i: u64 = 0;
                while i < m {
                    let mut guard = counter.lock().await;
                    *guard = counter_step(*guard).unwrap();
                    drop(guard);
                    i += 1;
                }
            }));
        }
        barrier.wait().await;
        for h in handles {
            h.await.unwrap();
        }
        assert_eq!(*shared.lock().await, 4000);
    });
}

#[test]
fn one_to_one_cooperative_yields_keep_the_consumer_fed() {
    // One pair of cooperative workers on a single-threaded scheduler over an
    // unbounded channel: the producer's voluntary yield every stride keeps
    // the consumer running beside it, and the run completes with the full
    // sum.
    let m: u64 = 10000;
    let rt = tokio::runtime::Builder::new_current_thread().build().unwrap();
    rt.block_on(async move {
        let (tx, mut rx) = tokio::sync::mpsc::unbounded_channel::<u64>();
        let barrier = Arc::new(async_barrier::Barrier::new(3));
        let bar = barrier.clone();
        let producer = tokio::task::spawn(async move {
            bar.wait().await;
            let mut i: u64 = 0;
            while i < m {
                tx.send(MESSAGE).unwrap();
                if should_yield(i) {
                    tokio::task::yield_now().await;
                }
                i += 1;
            }
        });
        let bar = barrier.clone();
        let consumer = tokio::task::spawn(async move {
            bar.wait().await;
            let mut sum: u64 = 0;
            let mut i: u64 = 0;
            while i < m {
                sum += rx.recv().await.unwrap();
                i += 1;
            }
            sum
        });
        barrier.wait().await;
        producer.await.unwrap();
        let sum = consumer.await.unwrap();
        assert_eq!(sum, 10000);
    });
}

#[test]
fn one_to_one_cooperative_bounded_backpressure() {
    // One pair over a bounded cooperative channel: sends suspend while the
    // queue is full, and the consumer still sums every message.
    let m: u64 = 5000;
    let rt = tokio::runtime::Builder::new_current_thread().build().unwrap();
    rt.block_on(async move {
        let (tx, mut rx) = tokio::sync::mpsc::channel::<u64>(1024);
        let barrier = Arc::new(async_barrier::Barrier::new(3));
        let bar = barrier.clone();
        let producer = tokio::task::spawn(async move {
            bar.wait().await;
            let mut i: u64 = 0;
            while i < m {
                tx.send(MESSAGE).await.unwrap();
                if should_yield(i) {
                    tokio::task::yield_now().await;
                }
                i += 1;
            }
        });
        let bar = barrier.clone();
        let consumer = tokio::task::spawn(async move {
            bar.wait().await;
            let mut sum: u64 = 0;
            let mut i: u64 = 0;
            while i < m {
                sum += rx.recv().await.unwrap();
                i += 1;
            }
            sum
        });
        barrier.wait().await;
        producer.await.unwrap();
        let sum = consumer.await.unwrap();
        assert_eq!(sum, 5000);
    });
}
