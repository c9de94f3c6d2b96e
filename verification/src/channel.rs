//! The channels that carry ticks to units and acknowledgements back: the
//! blocking channels of the standard library for units on threads of their
//! own, and the cooperative channels of `tokio` for pooled tasks. Verus
//! cannot see inside either, so every function here is taken on trust; none
//! promises anything about what a channel delivers.

use std::sync::mpsc::Receiver;
use std::sync::mpsc::SyncSender;
use vstd::prelude::*;

verus! {

/// `std::sync::mpsc::SyncSender`, opaque to the verifier.
#[verifier::external_type_specification]
#[verifier::external_body]
#[verifier::reject_recursive_types(T)]
pub struct ExSyncSender<T>(SyncSender<T>);

/// `std::sync::mpsc::Receiver`, opaque to the verifier.
#[verifier::external_type_specification]
#[verifier::external_body]
#[verifier::reject_recursive_types(T)]
pub struct ExReceiver<T>(Receiver<T>);

/// `tokio::sync::mpsc::Sender`, opaque to the verifier.
#[verifier::external_type_specification]
#[verifier::external_body]
#[verifier::reject_recursive_types(T)]
pub struct ExTaskSender<T>(tokio::sync::mpsc::Sender<T>);

/// `tokio::sync::mpsc::Receiver`, opaque to the verifier.
#[verifier::external_type_specification]
#[verifier::external_body]
#[verifier::reject_recursive_types(T)]
pub struct ExTaskReceiver<T>(tokio::sync::mpsc::Receiver<T>);

/// `std::sync::mpsc::sync_channel`: a new channel that buffers up to `bound`
/// values. With a bound of zero every send waits for its receive.
#[verifier::external_body]
pub(crate) fn thread_channel<T>(bound: usize) -> (ends: (SyncSender<T>, Receiver<T>)) {
    std::sync::mpsc::sync_channel(bound)
}

/// `SyncSender::send`: blocks until the value is taken or buffered, and
/// reports failure when the receiver is gone.
#[verifier::external_body]
pub(crate) fn thread_send<T>(sender: &SyncSender<T>, value: T) -> (delivered: bool) {
    sender.send(value).is_ok()
}

/// `Receiver::recv`: blocks until a value arrives, and yields nothing when
/// every sender is gone.
#[verifier::external_body]
pub(crate) fn thread_recv<T>(receiver: &Receiver<T>) -> (value: Option<T>) {
    receiver.recv().ok()
}

/// `SyncSender::clone`: another sender into the same channel.
#[verifier::external_body]
pub(crate) fn thread_sender<T>(sender: &SyncSender<T>) -> (other: SyncSender<T>) {
    sender.clone()
}

/// `tokio::sync::mpsc::channel`: a new channel that buffers up to `buffer`
/// values. It panics on a buffer of zero and on one above an eighth of the
/// machine's word range, which the precondition rules out.
#[verifier::external_body]
pub(crate) fn task_channel<T>(buffer: usize) -> (ends: (
    tokio::sync::mpsc::Sender<T>,
    tokio::sync::mpsc::Receiver<T>,
))
    requires
        0 < buffer <= usize::MAX / 8,
{
    tokio::sync::mpsc::channel(buffer)
}

/// `Sender::send`, driven to completion on the calling thread by
/// `pollster::block_on`: waits for room in the buffer, and reports failure
/// when the receiver is gone.
#[verifier::external_body]
pub(crate) fn task_send<T>(sender: &tokio::sync::mpsc::Sender<T>, value: T) -> (delivered: bool) {
    pollster::block_on(sender.send(value)).is_ok()
}

/// `Receiver::recv`, driven to completion on the calling thread by
/// `pollster::block_on`: waits for a value, and yields nothing when the
/// channel is closed and empty.
#[verifier::external_body]
pub(crate) fn task_recv<T>(receiver: &mut tokio::sync::mpsc::Receiver<T>) -> (value: Option<T>) {
    pollster::block_on(receiver.recv())
}

/// `Sender::clone`: another sender into the same channel.
#[verifier::external_body]
pub(crate) fn task_sender<T>(sender: &tokio::sync::mpsc::Sender<T>) -> (other:
    tokio::sync::mpsc::Sender<T>) {
    sender.clone()
}

} // verus!
