use vstd::prelude::*;

use futures::channel::mpsc::{TryRecvError, UnboundedReceiver, UnboundedSender};

use crate::smr::Pull;

verus! {

#[verifier::external_type_specification]
#[verifier::external_body]
#[verifier::reject_recursive_types(T)]
pub struct ExUnboundedSender<T>(UnboundedSender<T>);

#[verifier::external_type_specification]
#[verifier::external_body]
#[verifier::reject_recursive_types(T)]
pub struct ExUnboundedReceiver<T>(UnboundedReceiver<T>);

#[verifier::external_type_specification]
#[verifier::external_body]
#[verifier::reject_recursive_types(T)]
pub struct ExMutex<T: ?Sized>(std::sync::Mutex<T>);

/// Relies on futures' `mpsc::unbounded`: a new, open, empty channel.
pub assume_specification<T>[ futures::channel::mpsc::unbounded::<T> ]() -> (UnboundedSender<T>, UnboundedReceiver<T>);

/// Relies on `Clone for UnboundedSender`: another sender into the same channel.
pub assume_specification<T>[ <UnboundedSender<T> as Clone>::clone ](tx: &UnboundedSender<T>) -> UnboundedSender<T>;

/// Relies on `UnboundedSender::unbounded_send`: enqueues `msg` behind every earlier
/// message without blocking, and fails only when the receiving end is gone.
/// Whether that is so depends on another task, so nothing is promised of the result.
#[verifier::external_body]
pub(crate) fn send<T>(tx: &UnboundedSender<T>, msg: T) -> (r: bool) {
    tx.unbounded_send(msg).is_ok()
}

/// Relies on `UnboundedReceiver::try_recv`: takes the oldest message if one is queued,
/// reports an empty queue, or reports that every sender is gone and the queue is drained.
#[verifier::external_body]
pub(crate) fn try_recv<T>(rx: &mut UnboundedReceiver<T>) -> (r: Pull<T>) {
    match rx.try_recv() {
        Ok(msg) => Pull::Ready(msg),
        Err(TryRecvError::Empty) => Pull::Empty,
        Err(TryRecvError::Closed) => Pull::Closed,
    }
}

} // verus!
