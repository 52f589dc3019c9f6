//! The queues and hand-over cells the runtime is built on, with what the
//! runtime relies on of each. Their contents change under other threads'
//! hands, so no contract here speaks of what a queue holds.

use std::sync::Arc;
use std::time::Duration;
use vstd::prelude::*;

use crate::clock::duration_nanos;

verus! {

/// `flume::Sender`, the sending end of a queue, carried as it is.
#[verifier::external_type_specification]
#[verifier::external_body]
#[verifier::reject_recursive_types(T)]
pub struct ExQueueSender<T>(flume::Sender<T>);

/// `flume::Receiver`, the receiving end of a queue, carried as it is.
#[verifier::external_type_specification]
#[verifier::external_body]
#[verifier::reject_recursive_types(T)]
pub struct ExQueueReceiver<T>(flume::Receiver<T>);

/// `tokio::sync::oneshot::Sender`, the sink of an acknowledgement, carried
/// as it is.
#[verifier::external_type_specification]
#[verifier::external_body]
#[verifier::reject_recursive_types(T)]
pub struct ExAckSender<T>(tokio::sync::oneshot::Sender<T>);

/// `tokio::sync::watch::Sender`, the writer of a watched value, carried as
/// it is.
#[verifier::external_type_specification]
#[verifier::external_body]
#[verifier::reject_recursive_types(T)]
pub struct ExWatchSender<T>(tokio::sync::watch::Sender<T>);

/// `flume::bounded` makes a queue that holds at most `cap` items; nothing is
/// claimed of the two ends.
pub assume_specification<T>[ flume::bounded::<T> ](cap: usize) -> (ends: (
    flume::Sender<T>,
    flume::Receiver<T>,
))
;

/// `flume::unbounded` makes a queue without a limit; nothing is claimed of the
/// two ends.
pub assume_specification<T>[ flume::unbounded::<T> ]() -> (ends: (
    flume::Sender<T>,
    flume::Receiver<T>,
))
;

/// `tokio::sync::oneshot::Sender::send` hands the value to the waiting side
/// and gives it back if that side is gone; nothing is claimed of the result.
pub assume_specification<T>[ tokio::sync::oneshot::Sender::<T>::send ](
    tx: tokio::sync::oneshot::Sender<T>,
    t: T,
) -> (sent: Result<(), T>)
;

/// What a queue yields when asked without waiting.
pub enum Polled<T> {
    /// The item at the front of the queue.
    Ready(T),
    /// Nothing is queued, and senders remain.
    Empty,
    /// Nothing is queued, and every sender is gone.
    Disconnected,
}

/// What a queue yields when asked with a bounded wait.
pub enum Waited<T> {
    /// The item at the front of the queue.
    Ready(T),
    /// Nothing arrived within the wait.
    TimedOut,
    /// Nothing is queued, and every sender is gone.
    Disconnected,
}

/// Calls `flume::Receiver::try_recv` and tells its three outcomes apart.
/// Nothing is claimed of which one comes.
#[verifier::external_body]
pub(crate) fn poll<T>(rx: &flume::Receiver<T>) -> (polled: Polled<T>) {
    match rx.try_recv() {
        Ok(item) => Polled::Ready(item),
        Err(flume::TryRecvError::Empty) => Polled::Empty,
        Err(flume::TryRecvError::Disconnected) => Polled::Disconnected,
    }
}

/// Calls `flume::Receiver::recv_timeout` and tells its three outcomes apart.
/// Nothing is claimed of which one comes. The wait is to be short: added to
/// the present instant, a length beyond what an instant can hold would leave
/// the call waiting without a limit.
#[verifier::external_body]
pub(crate) fn wait<T>(rx: &flume::Receiver<T>, timeout: Duration) -> (waited: Waited<T>)
    requires
        duration_nanos(timeout) <= 1_000_000_000,
{
    match rx.recv_timeout(timeout) {
        Ok(item) => Waited::Ready(item),
        Err(flume::RecvTimeoutError::Timeout) => Waited::TimedOut,
        Err(flume::RecvTimeoutError::Disconnected) => Waited::Disconnected,
    }
}

/// Calls `flume::Sender::send`, which enqueues the item, waiting for room in
/// a bounded queue, and fails once every receiver is gone; the item then
/// comes back. Which of the two happens is up to the other end, so nothing is
/// claimed of the result.
#[verifier::external_body]
pub(crate) fn enqueue<T>(tx: &flume::Sender<T>, item: T) -> (sent: Result<(), T>) {
    tx.send(item).map_err(|refused| refused.into_inner())
}

/// Calls `tokio::sync::watch::Sender::send`, which replaces the watched value
/// and fails when nobody watches; the value then comes back. Nothing is
/// claimed of the result.
#[verifier::external_body]
pub(crate) fn publish<T>(tx: &tokio::sync::watch::Sender<T>, value: T) -> (sent: Result<(), T>) {
    tx.send(value).map_err(|refused| refused.0)
}

/// Calls `Arc::clone`: the new handle points at the same value.
#[verifier::external_body]
pub(crate) fn share<T>(handle: &Arc<T>) -> (shared: Arc<T>)
    ensures
        shared == *handle,
{
    Arc::clone(handle)
}

/// Calls `Arc::strong_count`. Other threads make and drop handles, so nothing
/// is claimed of the number.
#[verifier::external_body]
pub(crate) fn holders<T>(handle: &Arc<T>) -> (count: usize) {
    Arc::strong_count(handle)
}

} // verus!
