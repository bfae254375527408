use vstd::prelude::*;
use std::sync::Arc;
use crate::barrier::StartGuard;
use crate::error::BenchError;
use crate::params::counter_step;

verus! {

#[verifier::external_type_specification]
#[verifier::external_body]
#[verifier::reject_recursive_types(T)]
pub struct ExMutex<T: ?Sized>(std::sync::Mutex<T>);

/// An integer protected by a blocking mutex and shared by the lockers of a
/// mutex workload; every mutation holds the lock.
pub struct SharedCounter {
    cell: Arc<std::sync::Mutex<u64>>,
}

/// The integer a mutex was constructed around. The store moves on under the
/// lock; the construction value stands, fixed for the mutex.
pub uninterp spec fn mutex_initial(m: std::sync::Mutex<u64>) -> u64;

/// Relies on std::sync::Mutex::new: a mutex around exactly the given value.
#[verifier::external_body]
fn mutex_new(v: u64) -> (m: std::sync::Mutex<u64>)
    ensures
        mutex_initial(m) == v,
{
    std::sync::Mutex::new(v)
}

/// Relies on std::sync::Mutex::lock: exclusive access to the protected
/// integer while the guard lives, so the value `f` is applied to is the value
/// the store holds at that moment; the store is overwritten with `f`'s result
/// when there is one, and `Err` reports exactly a poisoned mutex.
#[verifier::external_body]
fn counter_update<F: FnOnce(u64) -> Option<u64>>(c: &SharedCounter, f: F) -> (r: Result<
    Option<u64>,
    BenchError,
>)
    requires
        forall|v: u64| #[trigger] f.requires((v,)),
    ensures
        r matches Ok(stored) ==> exists|v: u64| call_ensures(f, (v,), stored),
        r matches Err(e) ==> e == BenchError::Poisoned,
{
    match c.cell.lock() {
        Ok(mut guard) => {
            let prev: u64 = *guard;
            match f(prev) {
                Some(next) => {
                    *guard = next;
                    Ok(Some(next))
                },
                None => Ok(None),
            }
        },
        Err(_) => Err(BenchError::Poisoned),
    }
}

/// Relies on std::sync::Mutex::lock: the returned integer is the value the
/// store holds while the lock is held, and `Err` reports exactly a poisoned
/// mutex.
#[verifier::external_body]
fn counter_load(c: &SharedCounter) -> (r: Result<u64, BenchError>)
    ensures
        r matches Err(e) ==> e == BenchError::Poisoned,
{
    match c.cell.lock() {
        Ok(guard) => Ok(*guard),
        Err(_) => Err(BenchError::Poisoned),
    }
}

/// Relies on Arc::clone: the result is a handle to the same allocation, hence
/// to the very same mutex and counter.
#[verifier::external_body]
fn counter_share(c: &SharedCounter) -> (r: SharedCounter)
    ensures
        r == *c,
{
    SharedCounter { cell: Arc::clone(&c.cell) }
}

impl SharedCounter {
    /// The value this counter was constructed holding.
    pub closed spec fn initial(self) -> u64 {
        mutex_initial(*self.cell)
    }

    /// A fresh counter constructed at zero.
    pub fn new() -> (r: SharedCounter)
        ensures
            r.initial() == 0,
    {
        SharedCounter { cell: Arc::new(mutex_new(0)) }
    }

    /// Another handle to the same counter, for one more locker to carry.
    pub fn share(&self) -> (r: SharedCounter)
        ensures
            r == *self,
    {
        counter_share(self)
    }

    /// Acquires the lock once and raises the counter by one, returning the
    /// raised value; fails on a poisoned mutex, or with
    /// [`BenchError::Overflow`] when the counter width is exhausted. The
    /// [`StartGuard`] keeps any locking before the start barrier's release
    /// out of the timed region.
    pub fn fetch_increment(&self, _started: &StartGuard) -> (r: Result<u64, BenchError>)
        ensures
            r matches Ok(v) ==> 1 <= v,
            r matches Err(e) ==> e == BenchError::Poisoned || e == BenchError::Overflow,
    {
        match counter_update(self, counter_step) {
            Ok(Some(v)) => Ok(v),
            Ok(None) => Err(BenchError::Overflow),
            Err(e) => Err(e),
        }
    }

    /// The value the counter holds now; fails only on a poisoned mutex.
    pub fn load(&self) -> (r: Result<u64, BenchError>)
        ensures
            r matches Err(e) ==> e == BenchError::Poisoned,
    {
        counter_load(self)
    }
}

} // verus!
