//! Trusted boundary to the message-passing primitives this runtime is built
//! on: the unbounded multi-producer channels and one-shot reply channels of
//! the `futures` crate, and the asynchronous mutex of the `qutex` crate.
//!
//! Everything here is a declaration of an outside type or a thin wrapper
//! around one outside call. A channel is shared mutable state, so nothing
//! can be promised about what a probe yields or whether a send finds the
//! receiver alive; the wrappers promise only what holds of every outcome
//! (a failed send hands the value back). The verified state machines take
//! the probed value as an argument and are proved for every value of it.

use vstd::prelude::*;

verus! {

#[verifier::external_type_specification]
#[verifier::external_body]
#[verifier::reject_recursive_types(T)]
pub struct ExUnboundedSender<T>(futures::channel::mpsc::UnboundedSender<T>);

#[verifier::external_type_specification]
#[verifier::external_body]
#[verifier::reject_recursive_types(T)]
pub struct ExUnboundedReceiver<T>(futures::channel::mpsc::UnboundedReceiver<T>);

#[verifier::external_type_specification]
#[verifier::external_body]
#[verifier::reject_recursive_types(T)]
pub struct ExOneshotSender<T>(futures::channel::oneshot::Sender<T>);

#[verifier::external_type_specification]
#[verifier::external_body]
#[verifier::reject_recursive_types(T)]
pub struct ExOneshotReceiver<T>(futures::channel::oneshot::Receiver<T>);

#[verifier::external_type_specification]
#[verifier::external_body]
pub struct ExCanceled(futures::channel::oneshot::Canceled);

#[verifier::external_type_specification]
#[verifier::external_body]
#[verifier::reject_recursive_types(T)]
pub struct ExQutex<T>(qutex::Qutex<T>);

/// Outcome of a non-blocking probe of an inbox.
pub enum RecvProbe<T> {
    /// A message was queued; this is the oldest one.
    Ready(T),
    /// Every sender is gone and the queue is drained.
    Closed,
    /// Nothing is queued yet, but senders remain.
    Empty,
}

/// Relies on `futures::channel::mpsc::unbounded`: creates a multi-producer,
/// single-consumer first-in-first-out queue with no capacity bound.
#[verifier::external_body]
pub(crate) fn unbounded_channel<T>() -> (
    futures::channel::mpsc::UnboundedSender<T>,
    futures::channel::mpsc::UnboundedReceiver<T>,
) {
    futures::channel::mpsc::unbounded()
}

/// Relies on `UnboundedSender::unbounded_send` and `TrySendError::into_inner`:
/// an unbounded channel is never full, so a send fails only when the receiver
/// is gone, and then the message itself is handed back unchanged.
#[verifier::external_body]
pub(crate) fn channel_send<T>(
    s: &futures::channel::mpsc::UnboundedSender<T>,
    v: T,
) -> (r: Result<(), T>)
    ensures
        r matches Err(m) ==> m == v,
{
    s.unbounded_send(v).map_err(|e| e.into_inner())
}

/// Relies on `UnboundedSender::clone`: the clone feeds the same queue.
#[verifier::external_body]
pub(crate) fn clone_sender<T>(
    s: &futures::channel::mpsc::UnboundedSender<T>,
) -> futures::channel::mpsc::UnboundedSender<T> {
    s.clone()
}

/// Relies on `UnboundedReceiver::try_recv`: `Ok(t)` when a message is queued,
/// `Err(Closed)` when every sender is gone and the queue is drained,
/// `Err(Empty)` when nothing is queued yet.
#[verifier::external_body]
pub(crate) fn channel_probe<T>(
    r: &mut futures::channel::mpsc::UnboundedReceiver<T>,
) -> RecvProbe<T> {
    match r.try_recv() {
        Ok(v) => RecvProbe::Ready(v),
        Err(futures::channel::mpsc::TryRecvError::Closed) => RecvProbe::Closed,
        Err(futures::channel::mpsc::TryRecvError::Empty) => RecvProbe::Empty,
    }
}

/// Relies on `futures::channel::oneshot::channel`: creates a channel that
/// carries at most one value.
#[verifier::external_body]
pub(crate) fn oneshot_channel<T>() -> (
    futures::channel::oneshot::Sender<T>,
    futures::channel::oneshot::Receiver<T>,
) {
    futures::channel::oneshot::channel()
}

/// Relies on `oneshot::Sender::send`: consumes the sender, so a reply can be
/// issued at most once; when the receiver was dropped first, the value is
/// handed back unchanged.
#[verifier::external_body]
pub(crate) fn oneshot_send<T>(
    s: futures::channel::oneshot::Sender<T>,
    v: T,
) -> (r: Result<(), T>)
    ensures
        r matches Err(m) ==> m == v,
{
    s.send(v)
}

/// Relies on `oneshot::Receiver::try_recv`: `Ok(Some(t))` once the value was
/// sent, `Ok(None)` while it was not sent yet, and an error when the sender
/// was dropped without sending.
#[verifier::external_body]
pub(crate) fn oneshot_try_recv<T>(
    r: &mut futures::channel::oneshot::Receiver<T>,
) -> Result<Option<T>, ()> {
    r.try_recv().map_err(|_| ())
}

/// Relies on `qutex::Qutex::new`: wraps the value in an asynchronous mutex.
#[verifier::external_body]
pub(crate) fn new_qutex<T>(v: T) -> qutex::Qutex<T> {
    qutex::Qutex::new(v)
}

/// Relies on `qutex::Qutex::clone`: the clone guards the same value.
#[verifier::external_body]
pub(crate) fn clone_qutex<T>(q: &qutex::Qutex<T>) -> qutex::Qutex<T> {
    q.clone()
}

} // verus!
