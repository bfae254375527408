use vstd::prelude::*;
use crate::barrier::StartGuard;
use crate::error::BenchError;

verus! {

#[verifier::external_type_specification]
#[verifier::external_body]
#[verifier::reject_recursive_types(T)]
pub struct ExFlumeSender<T>(flume::Sender<T>);

#[verifier::external_type_specification]
#[verifier::external_body]
#[verifier::reject_recursive_types(T)]
pub struct ExFlumeReceiver<T>(flume::Receiver<T>);

#[verifier::external_type_specification]
#[verifier::external_body]
#[verifier::reject_recursive_types(T)]
pub struct ExCrossbeamSender<T>(crossbeam::channel::Sender<T>);

#[verifier::external_type_specification]
#[verifier::external_body]
#[verifier::reject_recursive_types(T)]
pub struct ExCrossbeamReceiver<T>(crossbeam::channel::Receiver<T>);

#[verifier::external_type_specification]
#[verifier::external_body]
#[verifier::reject_recursive_types(T)]
pub struct ExMpscSender<T>(std::sync::mpsc::Sender<T>);

#[verifier::external_type_specification]
#[verifier::external_body]
#[verifier::reject_recursive_types(T)]
pub struct ExMpscSyncSender<T>(std::sync::mpsc::SyncSender<T>);

#[verifier::external_type_specification]
#[verifier::external_body]
#[verifier::reject_recursive_types(T)]
pub struct ExMpscReceiver<T>(std::sync::mpsc::Receiver<T>);

/// Relies on flume::unbounded: a FIFO channel pair whose sender never blocks
/// on capacity.
#[verifier::external_body]
fn flume_unbounded() -> (flume::Sender<u64>, flume::Receiver<u64>) {
    flume::unbounded()
}

/// Relies on flume::bounded: a FIFO channel pair whose sender blocks while
/// `cap` messages are pending.
#[verifier::external_body]
fn flume_bounded(cap: usize) -> (flume::Sender<u64>, flume::Receiver<u64>) {
    flume::bounded(cap)
}

/// Relies on flume::Sender::send: blocks while a bounded channel is full and
/// fails exactly when every receiver has been dropped.
#[verifier::external_body]
fn flume_send(tx: &flume::Sender<u64>, v: u64) -> (r: Result<(), BenchError>)
    ensures
        r matches Err(e) ==> e == BenchError::Disconnected,
{
    match tx.send(v) {
        Ok(()) => Ok(()),
        Err(_) => Err(BenchError::Disconnected),
    }
}

/// Relies on flume::Receiver::recv: blocks while the channel is empty and
/// fails exactly when it is empty with every sender dropped.
#[verifier::external_body]
fn flume_recv(rx: &flume::Receiver<u64>) -> (r: Result<u64, BenchError>)
    ensures
        r matches Err(e) ==> e == BenchError::Disconnected,
{
    match rx.recv() {
        Ok(v) => Ok(v),
        Err(_) => Err(BenchError::Disconnected),
    }
}

/// Relies on flume's Clone for Sender: another handle to the same channel.
#[verifier::external_body]
fn flume_share(tx: &flume::Sender<u64>) -> (flume::Sender<u64>) {
    tx.clone()
}

/// Relies on crossbeam::channel::unbounded: a FIFO channel pair whose sender
/// never blocks on capacity.
#[verifier::external_body]
fn crossbeam_unbounded() -> (crossbeam::channel::Sender<u64>, crossbeam::channel::Receiver<u64>) {
    crossbeam::channel::unbounded()
}

/// Relies on crossbeam::channel::bounded: a FIFO channel pair whose sender
/// blocks while `cap` messages are pending.
#[verifier::external_body]
fn crossbeam_bounded(cap: usize) -> (
    crossbeam::channel::Sender<u64>,
    crossbeam::channel::Receiver<u64>,
) {
    crossbeam::channel::bounded(cap)
}

/// Relies on crossbeam::channel::Sender::send: blocks while a bounded channel
/// is full and fails exactly when every receiver has been dropped.
#[verifier::external_body]
fn crossbeam_send(tx: &crossbeam::channel::Sender<u64>, v: u64) -> (r: Result<(), BenchError>)
    ensures
        r matches Err(e) ==> e == BenchError::Disconnected,
{
    match tx.send(v) {
        Ok(()) => Ok(()),
        Err(_) => Err(BenchError::Disconnected),
    }
}

/// Relies on crossbeam::channel::Receiver::recv: blocks while the channel is
/// empty and fails exactly when it is empty with every sender dropped.
#[verifier::external_body]
fn crossbeam_recv(rx: &crossbeam::channel::Receiver<u64>) -> (r: Result<u64, BenchError>)
    ensures
        r matches Err(e) ==> e == BenchError::Disconnected,
{
    match rx.recv() {
        Ok(v) => Ok(v),
        Err(_) => Err(BenchError::Disconnected),
    }
}

/// Relies on crossbeam's Clone for Sender: another handle to the same channel.
#[verifier::external_body]
fn crossbeam_share(tx: &crossbeam::channel::Sender<u64>) -> (crossbeam::channel::Sender<u64>) {
    tx.clone()
}

/// Relies on std::sync::mpsc::channel: a FIFO channel pair whose sender never
/// blocks on capacity.
#[verifier::external_body]
fn mpsc_channel() -> (std::sync::mpsc::Sender<u64>, std::sync::mpsc::Receiver<u64>) {
    std::sync::mpsc::channel()
}

/// Relies on std::sync::mpsc::sync_channel: a FIFO channel pair whose sender
/// blocks while `cap` messages are pending.
#[verifier::external_body]
fn mpsc_sync_channel(cap: usize) -> (
    std::sync::mpsc::SyncSender<u64>,
    std::sync::mpsc::Receiver<u64>,
) {
    std::sync::mpsc::sync_channel(cap)
}

/// Relies on std::sync::mpsc::Sender::send: fails exactly when the receiver
/// has been dropped.
#[verifier::external_body]
fn mpsc_send(tx: &std::sync::mpsc::Sender<u64>, v: u64) -> (r: Result<(), BenchError>)
    ensures
        r matches Err(e) ==> e == BenchError::Disconnected,
{
    match tx.send(v) {
        Ok(()) => Ok(()),
        Err(_) => Err(BenchError::Disconnected),
    }
}

/// Relies on std::sync::mpsc::SyncSender::send: blocks while the channel is
/// full and fails exactly when the receiver has been dropped.
#[verifier::external_body]
fn mpsc_sync_send(tx: &std::sync::mpsc::SyncSender<u64>, v: u64) -> (r: Result<(), BenchError>)
    ensures
        r matches Err(e) ==> e == BenchError::Disconnected,
{
    match tx.send(v) {
        Ok(()) => Ok(()),
        Err(_) => Err(BenchError::Disconnected),
    }
}

/// Relies on std::sync::mpsc::Receiver::recv: blocks while the channel is
/// empty and fails exactly when it is empty with every sender dropped.
#[verifier::external_body]
fn mpsc_recv(rx: &std::sync::mpsc::Receiver<u64>) -> (r: Result<u64, BenchError>)
    ensures
        r matches Err(e) ==> e == BenchError::Disconnected,
{
    match rx.recv() {
        Ok(v) => Ok(v),
        Err(_) => Err(BenchError::Disconnected),
    }
}

/// Relies on std's Clone for mpsc::Sender: another handle to the same channel.
#[verifier::external_body]
fn mpsc_share(tx: &std::sync::mpsc::Sender<u64>) -> (std::sync::mpsc::Sender<u64>) {
    tx.clone()
}

/// Relies on std's Clone for mpsc::SyncSender: another handle to the same
/// channel.
#[verifier::external_body]
fn mpsc_sync_share(tx: &std::sync::mpsc::SyncSender<u64>) -> (std::sync::mpsc::SyncSender<u64>) {
    tx.clone()
}

/// The producer endpoint of a channel under measurement, from whichever
/// library supplied it. Every endpoint carries `u64` messages and keeps them
/// in FIFO order per sender.
pub enum ProducerHandle {
    Flume(flume::Sender<u64>),
    Crossbeam(crossbeam::channel::Sender<u64>),
    Mpsc(std::sync::mpsc::Sender<u64>),
    MpscSync(std::sync::mpsc::SyncSender<u64>),
}

/// The consumer endpoint matching a [`ProducerHandle`].
pub enum ConsumerHandle {
    Flume(flume::Receiver<u64>),
    Crossbeam(crossbeam::channel::Receiver<u64>),
    Mpsc(std::sync::mpsc::Receiver<u64>),
}

impl ProducerHandle {
    /// Sends one message; blocks while a bounded channel is full. Fails
    /// exactly when every receiver has been dropped. The [`StartGuard`]
    /// keeps any sending before the start barrier's release out of the
    /// timed region.
    pub fn send(&self, v: u64, _started: &StartGuard) -> (r: Result<(), BenchError>)
        ensures
            r matches Err(e) ==> e == BenchError::Disconnected,
    {
        match self {
            ProducerHandle::Flume(tx) => flume_send(tx, v),
            ProducerHandle::Crossbeam(tx) => crossbeam_send(tx, v),
            ProducerHandle::Mpsc(tx) => mpsc_send(tx, v),
            ProducerHandle::MpscSync(tx) => mpsc_sync_send(tx, v),
        }
    }

    /// Another handle to the same channel, for one more producer to own.
    pub fn share(&self) -> (r: ProducerHandle)
        ensures
            r is Flume <==> self is Flume,
            r is Crossbeam <==> self is Crossbeam,
            r is Mpsc <==> self is Mpsc,
            r is MpscSync <==> self is MpscSync,
    {
        match self {
            ProducerHandle::Flume(tx) => ProducerHandle::Flume(flume_share(tx)),
            ProducerHandle::Crossbeam(tx) => ProducerHandle::Crossbeam(crossbeam_share(tx)),
            ProducerHandle::Mpsc(tx) => ProducerHandle::Mpsc(mpsc_share(tx)),
            ProducerHandle::MpscSync(tx) => ProducerHandle::MpscSync(mpsc_sync_share(tx)),
        }
    }
}

impl ConsumerHandle {
    /// Receives one message; blocks while the channel is empty. Fails exactly
    /// when the channel is empty and every sender has been dropped. The
    /// [`StartGuard`] keeps any receiving before the start barrier's release
    /// out of the timed region.
    pub fn recv(&self, _started: &StartGuard) -> (r: Result<u64, BenchError>)
        ensures
            r matches Err(e) ==> e == BenchError::Disconnected,
    {
        match self {
            ConsumerHandle::Flume(rx) => flume_recv(rx),
            ConsumerHandle::Crossbeam(rx) => crossbeam_recv(rx),
            ConsumerHandle::Mpsc(rx) => mpsc_recv(rx),
        }
    }
}

/// A linked producer and consumer endpoint, as a channel factory hands them
/// out and a one-to-one workload owns them per worker pair.
pub struct ChannelPair {
    pub sender: ProducerHandle,
    pub receiver: ConsumerHandle,
}

/// A pair over std::sync::mpsc::channel (unbounded, blocking).
pub fn mpsc_pair() -> (r: ChannelPair)
    ensures
        r.sender is Mpsc,
        r.receiver is Mpsc,
{
    let (tx, rx) = mpsc_channel();
    ChannelPair { sender: ProducerHandle::Mpsc(tx), receiver: ConsumerHandle::Mpsc(rx) }
}

/// A pair over std::sync::mpsc::sync_channel with capacity `cap`.
pub fn mpsc_sync_pair(cap: usize) -> (r: ChannelPair)
    ensures
        r.sender is MpscSync,
        r.receiver is Mpsc,
{
    let (tx, rx) = mpsc_sync_channel(cap);
    ChannelPair { sender: ProducerHandle::MpscSync(tx), receiver: ConsumerHandle::Mpsc(rx) }
}

/// A pair over flume::unbounded.
pub fn flume_unbounded_pair() -> (r: ChannelPair)
    ensures
        r.sender is Flume,
        r.receiver is Flume,
{
    let (tx, rx) = flume_unbounded();
    ChannelPair { sender: ProducerHandle::Flume(tx), receiver: ConsumerHandle::Flume(rx) }
}

/// A pair over flume::bounded with capacity `cap`.
pub fn flume_bounded_pair(cap: usize) -> (r: ChannelPair)
    ensures
        r.sender is Flume,
        r.receiver is Flume,
{
    let (tx, rx) = flume_bounded(cap);
    ChannelPair { sender: ProducerHandle::Flume(tx), receiver: ConsumerHandle::Flume(rx) }
}

/// A pair over crossbeam::channel::unbounded.
pub fn crossbeam_unbounded_pair() -> (r: ChannelPair)
    ensures
        r.sender is Crossbeam,
        r.receiver is Crossbeam,
{
    let (tx, rx) = crossbeam_unbounded();
    ChannelPair { sender: ProducerHandle::Crossbeam(tx), receiver: ConsumerHandle::Crossbeam(rx) }
}

/// A pair over crossbeam::channel::bounded with capacity `cap`.
pub fn crossbeam_bounded_pair(cap: usize) -> (r: ChannelPair)
    ensures
        r.sender is Crossbeam,
        r.receiver is Crossbeam,
{
    let (tx, rx) = crossbeam_bounded(cap);
    ChannelPair { sender: ProducerHandle::Crossbeam(tx), receiver: ConsumerHandle::Crossbeam(rx) }
}

} // verus!
