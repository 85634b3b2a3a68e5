//! The channel primitives the pool is built on, taken on trust.
//!
//! The bounded multi-producer/multi-consumer command channel comes from
//! `async_channel`; the per-command one-shot result channel comes from
//! `futures::channel::oneshot`. Both are shared concurrent state, so no
//! contract here relates one call's result to another call's: each wrapper
//! states only what the crate's source shows of every outcome.

use vstd::prelude::*;

use crate::cmd::Queued;
use crate::cmd::Response;
use crate::cmd::ResultReceiver;
use crate::cmd::ResultSender;

verus! {

/// The sending half of an async_channel channel, opaque here.
#[verifier::external_type_specification]
#[verifier::external_body]
#[verifier::reject_recursive_types(T)]
pub struct ExChanSender<T>(async_channel::Sender<T>);

/// The receiving half of an async_channel channel, opaque here.
#[verifier::external_type_specification]
#[verifier::external_body]
#[verifier::reject_recursive_types(T)]
pub struct ExChanReceiver<T>(async_channel::Receiver<T>);

/// The sending half of a futures one-shot channel, opaque here.
#[verifier::external_type_specification]
#[verifier::external_body]
#[verifier::reject_recursive_types(T)]
pub struct ExOneshotSender<T>(futures::channel::oneshot::Sender<T>);

/// The receiving half of a futures one-shot channel, opaque here.
#[verifier::external_type_specification]
#[verifier::external_body]
#[verifier::reject_recursive_types(T)]
pub struct ExOneshotReceiver<T>(futures::channel::oneshot::Receiver<T>);

/// The error a futures one-shot receiver reports when its sender was
/// dropped without sending.
#[verifier::external_type_specification]
#[verifier::external_body]
pub struct ExOneshotCanceled(futures::channel::oneshot::Canceled);

/// A non-waiting send the channel refused, handing the command back.
pub enum TrySendFailure {
    /// The channel was full but open.
    Full(Queued),
    /// The channel was closed.
    Closed(Queued),
}

/// Relies on async_channel::bounded: a fresh bounded channel holding at most
/// `cap` messages; it panics when `cap` is zero, so that input is excluded.
#[verifier::external_body]
pub(crate) fn channel_bounded(cap: usize) -> (r: (
    async_channel::Sender<Queued>,
    async_channel::Receiver<Queued>,
))
    requires
        cap >= 1,
{
    async_channel::bounded(cap)
}

/// Relies on async_channel::Sender::send_blocking: blocks the calling thread
/// while the channel is full; returns the message back when the channel is
/// closed.
#[verifier::external_body]
pub(crate) fn channel_send_blocking(s: &async_channel::Sender<Queued>, q: Queued) -> (r: Result<
    (),
    Queued,
>)
    ensures
        r is Err ==> r->Err_0 == q,
{
    match s.send_blocking(q) {
        Ok(()) => Ok(()),
        Err(async_channel::SendError(m)) => Err(m),
    }
}

/// Relies on async_channel::Sender::try_send: refuses rather than waits when
/// the channel is full or closed, handing the message back either way.
#[verifier::external_body]
pub(crate) fn channel_try_send(s: &async_channel::Sender<Queued>, q: Queued) -> (r: Result<
    (),
    TrySendFailure,
>)
    ensures
        (match r {
            Ok(()) => true,
            Err(TrySendFailure::Full(m)) => m == q,
            Err(TrySendFailure::Closed(m)) => m == q,
        }),
{
    match s.try_send(q) {
        Ok(()) => Ok(()),
        Err(async_channel::TrySendError::Full(m)) => Err(TrySendFailure::Full(m)),
        Err(async_channel::TrySendError::Closed(m)) => Err(TrySendFailure::Closed(m)),
    }
}

/// Relies on async_channel::Receiver::recv_blocking: blocks the calling
/// thread while the channel is empty and open; yields a queued command, or
/// `None` once the channel is closed and drained.
#[verifier::external_body]
pub(crate) fn channel_recv_blocking(r: &async_channel::Receiver<Queued>) -> (c: Option<Queued>) {
    match r.recv_blocking() {
        Ok(q) => Some(q),
        Err(async_channel::RecvError) => None,
    }
}

/// Relies on async_channel::Sender::close: closes the channel so every
/// further send fails and `recv` drains what remains; true when this call
/// closed it, false when it was closed already.
#[verifier::external_body]
pub(crate) fn channel_close(s: &async_channel::Sender<Queued>) -> (r: bool) {
    s.close()
}

/// Relies on async_channel::Sender::is_empty: a snapshot of whether the
/// channel currently holds no messages; subject to concurrent change.
#[verifier::external_body]
pub(crate) fn channel_is_empty(s: &async_channel::Sender<Queued>) -> (r: bool) {
    s.is_empty()
}

/// Relies on async_channel::Sender::len: a snapshot of how many messages the
/// channel currently holds; subject to concurrent change.
#[verifier::external_body]
pub(crate) fn channel_len(s: &async_channel::Sender<Queued>) -> (n: usize) {
    s.len()
}

/// Relies on async_channel::Sender::capacity: the bound the channel was
/// created with, or `None` for an unbounded channel.
#[verifier::external_body]
pub(crate) fn channel_capacity(s: &async_channel::Sender<Queued>) -> (r: Option<usize>) {
    s.capacity()
}

/// Relies on futures::channel::oneshot::channel: a fresh one-shot pair; the
/// receiver yields exactly what is sent on its paired sender.
#[verifier::external_body]
pub(crate) fn oneshot_pair() -> (r: (ResultSender, ResultReceiver)) {
    futures::channel::oneshot::channel()
}

/// Relies on futures::channel::oneshot::Sender::send: consumes the sender
/// and enqueues the value for the paired receiver; hands the value back
/// untouched when the receiver was already dropped.
#[verifier::external_body]
pub(crate) fn oneshot_send(s: ResultSender, v: Response) -> (r: Result<(), Response>)
    ensures
        r is Err ==> r->Err_0 == v,
{
    s.send(v)
}

/// Relies on futures::channel::oneshot::Sender::is_canceled: whether the
/// paired receiver has been dropped; the state may change concurrently.
#[verifier::external_body]
pub(crate) fn oneshot_is_canceled(s: &ResultSender) -> (r: bool) {
    s.is_canceled()
}

/// Relies on futures::channel::oneshot::Receiver::try_recv: the value the
/// paired sender sent if one arrived, `Ok(None)` while none has yet, and an
/// error when the sender was dropped without sending.
#[verifier::external_body]
pub(crate) fn oneshot_try_recv(r: &mut ResultReceiver) -> (v: Result<Option<Response>, ()>) {
    match r.try_recv() {
        Ok(o) => Ok(o),
        Err(_) => Err(()),
    }
}

} // verus!
