//! The outside primitives that carry a result from a background task to the
//! polling side: `futures`' oneshot and unbounded channels, its `AtomicWaker`,
//! and the few `std` operations on shared flags that need a contract here.
//! Every item in this file is trusted: Verus believes its contract.

use std::sync::Arc;
use std::sync::atomic::AtomicBool;
use std::task::Waker;

use futures::channel::mpsc;
use futures::channel::oneshot;
use futures::task::AtomicWaker;
use vstd::prelude::*;

use crate::receiver::TryRecv;

verus! {

/// `futures::channel::oneshot::Receiver`, held opaque.
#[verifier::external_type_specification]
#[verifier::external_body]
#[verifier::reject_recursive_types(T)]
pub struct ExOneshotReceiver<T>(oneshot::Receiver<T>);

/// `futures::channel::oneshot::Sender`, held opaque.
#[verifier::external_type_specification]
#[verifier::external_body]
#[verifier::reject_recursive_types(T)]
pub struct ExOneshotSender<T>(oneshot::Sender<T>);

/// `futures::channel::oneshot::Canceled`, held opaque; it is named by the
/// receiver's `Future` impl.
#[verifier::external_type_specification]
#[verifier::external_body]
pub struct ExCanceled(oneshot::Canceled);

/// `futures::channel::mpsc::UnboundedReceiver`, held opaque.
#[verifier::external_type_specification]
#[verifier::external_body]
#[verifier::reject_recursive_types(T)]
pub struct ExUnboundedReceiver<T>(mpsc::UnboundedReceiver<T>);

/// `futures::channel::mpsc::UnboundedSender`, held opaque.
#[verifier::external_type_specification]
#[verifier::external_body]
#[verifier::reject_recursive_types(T)]
pub struct ExUnboundedSender<T>(mpsc::UnboundedSender<T>);

/// `futures::task::AtomicWaker`, held opaque.
#[verifier::external_type_specification]
#[verifier::external_body]
pub struct ExAtomicWaker(AtomicWaker);

/// `std::task::Waker`, held opaque.
#[verifier::external_type_specification]
#[verifier::external_body]
pub struct ExWaker(Waker);

/// Calls `futures::channel::oneshot::channel`. Nothing is claimed of the two
/// fresh halves beyond their types.
#[verifier::external_body]
pub(crate) fn oneshot_channel<T>() -> (pair: (oneshot::Sender<T>, oneshot::Receiver<T>)) {
    oneshot::channel()
}

/// Calls `oneshot::Receiver::try_recv` and tells its three outcomes apart:
/// `Ok(Some(v))` is `Value(v)`, `Ok(None)` is `Empty`, `Err(Canceled)` is
/// `Closed`. Which outcome comes depends on the sending task and is not stated.
/// The claim is that the receiver handle itself is left as it was: the source
/// only reads and takes from the state shared behind it.
#[verifier::external_body]
pub(crate) fn oneshot_try_recv<T>(rx: &mut oneshot::Receiver<T>) -> (r: TryRecv<T>)
    ensures
        *final(rx) == *old(rx),
{
    match rx.try_recv() {
        Ok(Some(v)) => TryRecv::Value(v),
        Ok(None) => TryRecv::Empty,
        Err(_) => TryRecv::Closed,
    }
}

/// Calls `oneshot::Receiver::close`. The claim is that the receiver handle is
/// left as it was: the source only marks the shared state complete.
#[verifier::external_body]
pub(crate) fn oneshot_close<T>(rx: &mut oneshot::Receiver<T>)
    ensures
        *final(rx) == *old(rx),
{
    rx.close()
}

/// Calls `oneshot::Sender::send`. Whether it succeeds depends on the receiving
/// side and is not stated; the source shows that a refused value is handed back
/// unchanged.
#[verifier::external_body]
pub(crate) fn oneshot_send<T>(tx: oneshot::Sender<T>, v: T) -> (r: Result<(), T>)
    ensures
        r matches Err(w) ==> w == v,
{
    tx.send(v)
}

/// Calls `futures::channel::mpsc::unbounded`. Nothing is claimed of the two
/// fresh halves beyond their types.
#[verifier::external_body]
pub(crate) fn unbounded_channel<T>() -> (pair: (mpsc::UnboundedSender<T>, mpsc::UnboundedReceiver<T>)) {
    mpsc::unbounded()
}

/// Calls `mpsc::UnboundedReceiver::try_recv` and tells its outcomes apart:
/// `Ok(v)` is `Value(v)`, `Err(Empty)` is `Empty`, `Err(Closed)` is `Closed`
/// (channel closed and drained). Which one comes depends on the senders and is
/// not stated. The claim is that the receiver handle is left as it was unless
/// the outcome is `Closed`: the source pops from, and counts down, the state
/// shared behind the handle, and resets the handle only when it finds the
/// channel closed and drained.
#[verifier::external_body]
pub(crate) fn unbounded_try_recv<T>(rx: &mut mpsc::UnboundedReceiver<T>) -> (r: TryRecv<T>)
    ensures
        !(r is Closed) ==> *final(rx) == *old(rx),
{
    match rx.try_recv() {
        Ok(v) => TryRecv::Value(v),
        Err(mpsc::TryRecvError::Empty) => TryRecv::Empty,
        Err(mpsc::TryRecvError::Closed) => TryRecv::Closed,
    }
}

/// Calls `mpsc::UnboundedSender::unbounded_send` and reports whether the item
/// was queued (`Ok`). That depends on the receiving side and is not stated.
#[verifier::external_body]
pub(crate) fn unbounded_send<T>(tx: &mpsc::UnboundedSender<T>, v: T) -> (queued: bool) {
    tx.unbounded_send(v).is_ok()
}

/// Calls `AtomicWaker::new`. Nothing is claimed of the fresh cell.
#[verifier::external_body]
pub(crate) fn atomic_waker_new() -> (w: AtomicWaker) {
    AtomicWaker::new()
}

/// Calls `AtomicWaker::register` with the given task waker. No value is
/// returned and nothing is claimed.
#[verifier::external_body]
pub(crate) fn atomic_waker_register(cell: &AtomicWaker, waker: &Waker) {
    cell.register(waker)
}

/// Calls `AtomicWaker::wake`. The claim that it does not unwind rests on the
/// source, which takes the registered waker (if any) and wakes it; a waker
/// whose `wake` panics would break the claim.
#[verifier::external_body]
pub(crate) fn atomic_waker_wake(cell: &AtomicWaker)
    opens_invariants none
    no_unwind
{
    cell.wake()
}

/// Calls `Arc::clone`. The claim, from std's documentation, is that the clone
/// points to the same allocation, hence to the same value.
#[verifier::external_body]
pub(crate) fn arc_share<T>(a: &Arc<T>) -> (b: Arc<T>)
    ensures
        b == *a,
{
    Arc::clone(a)
}

/// Calls `AtomicBool::store` with `true` (relaxed). The claim that it does not
/// unwind rests on std's documentation: `store` panics only for the orderings
/// `Acquire` and `AcqRel`.
#[verifier::external_body]
pub(crate) fn raise_flag(flag: &AtomicBool)
    opens_invariants none
    no_unwind
{
    flag.store(true, std::sync::atomic::Ordering::Relaxed)
}

} // verus!
