//! The polling side of a background task: a receiver that catches one result,
//! and a receiver that catches the items of a stream.

use std::sync::Arc;
use std::sync::atomic::AtomicBool;

use futures::channel::mpsc;
use futures::channel::oneshot;
use futures::task::AtomicWaker;
use vstd::prelude::*;

use crate::channel::atomic_waker_wake;
use crate::channel::oneshot_close;
use crate::channel::oneshot_try_recv;
use crate::channel::raise_flag;
use crate::channel::unbounded_try_recv;

verus! {

/// What one non-blocking look into a channel found.
#[derive(Debug, PartialEq, Eq)]
pub enum TryRecv<T> {
    /// A value was waiting and has been taken out.
    Value(T),
    /// Nothing is waiting, but the sending side may still send.
    Empty,
    /// Nothing is waiting and nothing more will come.
    Closed,
}

impl<T> TryRecv<T> {
    /// The value that was taken out, if any.
    pub open spec fn value(self) -> Option<T> {
        match self {
            TryRecv::Value(v) => Some(v),
            _ => None,
        }
    }
}

/// A channel that catches the result of one background task.
#[derive(Debug)]
#[verifier::reject_recursive_types(T)]
pub struct AsyncReceiver<T> {
    /// Raised once the result has been taken, so that the producing side may end.
    pub(crate) received: Arc<AtomicBool>,
    /// Wakes the producing side once `received` is raised.
    pub(crate) waker: Arc<AtomicWaker>,
    pub(crate) receiver: oneshot::Receiver<T>,
}

impl<T> AsyncReceiver<T> {
    /// The shared cells through which this receiver tells the producing side
    /// that the result has been taken: the received flag and the waker.
    pub closed spec fn signals(self) -> (Arc<AtomicBool>, Arc<AtomicWaker>) {
        (self.received, self.waker)
    }

    /// Assembles a receiver from its channel end and shared cells.
    pub(crate) fn from_parts(
        received: Arc<AtomicBool>,
        waker: Arc<AtomicWaker>,
        receiver: oneshot::Receiver<T>,
    ) -> (rx: Self)
        ensures
            rx.signals() == (received, waker),
    {
        AsyncReceiver { received, waker, receiver }
    }

    /// Completes one look into the channel whose outcome is given: a value is
    /// handed out, after which the channel is closed, the result is marked as
    /// received and the producing side is woken; any other outcome hands out
    /// nothing and touches nothing.
    pub fn accept(&mut self, outcome: TryRecv<T>) -> (r: Option<T>)
        ensures
            r == outcome.value(),
            *final(self) == *old(self),
    {
        match outcome {
            TryRecv::Value(v) => {
                oneshot_close(&mut self.receiver);
                raise_flag(&self.received);
                atomic_waker_wake(&self.waker);
                Some(v)
            },
            TryRecv::Empty => None,
            TryRecv::Closed => None,
        }
    }

    /// Looks for the task's result without waiting. Whether it has arrived
    /// depends on the background task; the receiver itself stays the same.
    pub fn try_recv(&mut self) -> (r: Option<T>)
        ensures
            *final(self) == *old(self),
    {
        let outcome = self.look();
        self.accept(outcome)
    }

    /// Looks into the channel without taking any step on what it finds.
    pub(crate) fn look(&mut self) -> (outcome: TryRecv<T>)
        ensures
            *final(self) == *old(self),
    {
        oneshot_try_recv(&mut self.receiver)
    }

    /// Whether the result has already been taken out of this receiver.
    pub fn is_received(&self) -> (b: bool) {
        self.received.load(std::sync::atomic::Ordering::Relaxed)
    }
}

/// A channel that receives the items of a background stream.
#[derive(Debug)]
#[verifier::reject_recursive_types(T)]
pub struct AsyncStreamReceiver<T> {
    /// Raised by the producing side once the stream has ended.
    pub(crate) finished: Arc<AtomicBool>,
    /// Wakes the producing side once `received` is raised.
    pub(crate) waker: Arc<AtomicWaker>,
    pub(crate) receiver: mpsc::UnboundedReceiver<T>,
    /// Raised once the polling side is done with the stream.
    pub(crate) received: Arc<AtomicBool>,
}

impl<T> AsyncStreamReceiver<T> {
    /// The shared cells of this receiver: the flag that the producing side
    /// raises once the stream has ended, the waker of the producing side, and
    /// the flag raised once the polling side is done.
    pub closed spec fn signals(self) -> (Arc<AtomicBool>, Arc<AtomicWaker>, Arc<AtomicBool>) {
        (self.finished, self.waker, self.received)
    }

    /// Assembles a stream receiver from its channel end and shared cells.
    pub(crate) fn from_parts(
        finished: Arc<AtomicBool>,
        waker: Arc<AtomicWaker>,
        receiver: mpsc::UnboundedReceiver<T>,
        received: Arc<AtomicBool>,
    ) -> (rx: Self)
        ensures
            rx.signals() == (finished, waker, received),
    {
        AsyncStreamReceiver { finished, waker, receiver, received }
    }

    /// Whether the stream has finished producing items.
    pub fn is_finished(&self) -> (b: bool) {
        self.finished.load(std::sync::atomic::Ordering::Relaxed)
    }

    /// Completes one look into the channel whose outcome is given: an item is
    /// handed out; an empty channel hands out nothing; a closed and drained
    /// channel hands out nothing and, if the stream has finished, tells the
    /// producing side that the polling side is done.
    pub fn accept(&mut self, outcome: TryRecv<T>) -> (r: Option<T>)
        ensures
            r == outcome.value(),
            *final(self) == *old(self),
    {
        match outcome {
            TryRecv::Value(item) => Some(item),
            TryRecv::Empty => None,
            TryRecv::Closed => {
                if self.is_finished() {
                    raise_flag(&self.received);
                    atomic_waker_wake(&self.waker);
                }
                None
            },
        }
    }

    /// Tries to receive the next item without blocking. Whether one is
    /// available depends on the background stream. The receiver keeps its
    /// shared cells, and is left as it was when an item is handed out.
    pub fn try_recv(&mut self) -> (r: Option<T>)
        ensures
            final(self).signals() == old(self).signals(),
            r is Some ==> *final(self) == *old(self),
    {
        let outcome = self.look();
        self.accept(outcome)
    }

    /// Looks into the channel without taking any step on what it finds. The
    /// receiver keeps its shared cells; only a look that finds the channel
    /// closed and drained may change the receiver itself.
    pub(crate) fn look(&mut self) -> (outcome: TryRecv<T>)
        ensures
            final(self).signals() == old(self).signals(),
            !(outcome is Closed) ==> *final(self) == *old(self),
    {
        unbounded_try_recv(&mut self.receiver)
    }
}

impl<T> Drop for AsyncStreamReceiver<T> {
    /// Tells the producing side that the polling side is done.
    fn drop(&mut self)
        opens_invariants none
        no_unwind
    {
        raise_flag(&self.received);
        atomic_waker_wake(&self.waker);
    }
}

} // verus!
