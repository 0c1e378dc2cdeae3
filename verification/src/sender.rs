//! The producing side of a background task, and the constructors that make a
//! connected pair of producing and polling sides. Running the producing side
//! (awaiting the task, feeding the stream) is left to the caller's executor.

use std::sync::Arc;
use std::sync::atomic::AtomicBool;
use std::task::Waker;

use futures::channel::mpsc;
use futures::channel::oneshot;
use futures::task::AtomicWaker;
use vstd::prelude::*;

use crate::channel::arc_share;
use crate::channel::atomic_waker_new;
use crate::channel::atomic_waker_register;
use crate::channel::atomic_waker_wake;
use crate::channel::oneshot_channel;
use crate::channel::oneshot_send;
use crate::channel::raise_flag;
use crate::channel::unbounded_channel;
use crate::channel::unbounded_send;
use crate::poll::Poll;
use crate::receiver::AsyncReceiver;
use crate::receiver::AsyncStreamReceiver;

verus! {

/// Lets the producing side wait until the polling side is done with it.
pub struct Acknowledgement {
    pub(crate) received: Arc<AtomicBool>,
    pub(crate) waker: Arc<AtomicWaker>,
}

impl Acknowledgement {
    /// The shared cells this handle watches: the received flag and the waker.
    pub closed spec fn cells(self) -> (Arc<AtomicBool>, Arc<AtomicWaker>) {
        (self.received, self.waker)
    }

    /// Whether this handle watches the very flag and waker through which the
    /// receiver `rx` reports that it has taken its result (clones of the same
    /// shared cells).
    pub open spec fn watches<T>(&self, rx: AsyncReceiver<T>) -> bool {
        self.cells() == rx.signals()
    }

    /// Whether this handle watches the very flag and waker through which the
    /// stream receiver `rx` reports that it is done.
    pub open spec fn watches_stream<T>(&self, rx: AsyncStreamReceiver<T>) -> bool {
        self.cells() == (rx.signals().2, rx.signals().1)
    }

    /// Registers the current task to be woken once the polling side is done,
    /// then reports `Ready` if it already is. Registering first means that a
    /// signal raised in between is not lost.
    pub fn poll_received(&self, waker: &Waker) -> (p: Poll<()>) {
        atomic_waker_register(&self.waker, waker);
        if self.received.load(std::sync::atomic::Ordering::Relaxed) {
            Poll::Ready(())
        } else {
            Poll::Pending
        }
    }
}

/// The producing side of a task with one result.
#[verifier::reject_recursive_types(T)]
pub struct TaskSender<T> {
    pub(crate) sender: oneshot::Sender<T>,
    pub(crate) ack: Acknowledgement,
}

impl<T> TaskSender<T> {
    /// The handle that `send` gives back on success.
    pub closed spec fn acknowledgement(&self) -> Acknowledgement {
        self.ack
    }

    /// Hands the task's result to the polling side. On success the producing
    /// side gets what it needs to wait for the result to be taken; if the
    /// polling side has gone away, the value comes back unchanged.
    pub fn send(self, value: T) -> (r: Result<Acknowledgement, T>)
        ensures
            r matches Err(w) ==> w == value,
            r matches Ok(a) ==> a == self.acknowledgement(),
    {
        let TaskSender { sender, ack } = self;
        match oneshot_send(sender, value) {
            Ok(()) => Ok(ack),
            Err(w) => Err(w),
        }
    }
}

/// Makes a connected pair: the producing side of a task with one result and
/// the receiver that catches it. The receiver starts out with no result taken.
/// The sender's acknowledgement watches the receiver's flag and waker.
pub fn task_channel<T>() -> (pair: (TaskSender<T>, AsyncReceiver<T>))
    ensures
        pair.0.acknowledgement().watches(pair.1),
{
    let (sender, receiver) = oneshot_channel();
    let waker = Arc::new(atomic_waker_new());
    let received = Arc::new(AtomicBool::new(false));
    let ack = Acknowledgement { received: arc_share(&received), waker: arc_share(&waker) };
    (TaskSender { sender, ack }, AsyncReceiver::from_parts(received, waker, receiver))
}

/// The producing side of a stream.
#[verifier::reject_recursive_types(T)]
pub struct StreamSender<T> {
    pub(crate) sender: mpsc::UnboundedSender<T>,
    pub(crate) finished: Arc<AtomicBool>,
    pub(crate) ack: Acknowledgement,
}

impl<T> StreamSender<T> {
    /// The handle through which the producing side waits for the polling side.
    pub closed spec fn acknowledgement(&self) -> Acknowledgement {
        self.ack
    }

    /// Whether `finish` raises the very flag that the stream receiver `rx`
    /// reads as "finished", and wakes through the receiver's waker.
    pub open spec fn finishes(&self, rx: AsyncStreamReceiver<T>) -> bool {
        &&& self.finished_cell() == rx.signals().0
        &&& self.acknowledgement().cells().1 == rx.signals().1
    }

    /// The flag that `finish` raises.
    pub closed spec fn finished_cell(&self) -> Arc<AtomicBool> {
        self.finished
    }

    /// One step of feeding the stream to the polling side, given what the
    /// stream produced next (`None` once it has ended): an item is queued.
    /// Returns whether to go on pulling items: never after the end of the
    /// stream, and not once the polling side has gone away (the item is then
    /// dropped).
    pub fn forward(&self, next: Option<T>) -> (go_on: bool)
        ensures
            next is None ==> !go_on,
    {
        match next {
            Some(item) => self.send(item),
            None => false,
        }
    }

    /// Queues one item for the polling side; `false` means that the polling
    /// side has gone away and the stream should stop early.
    pub fn send(&self, item: T) -> (queued: bool) {
        unbounded_send(&self.sender, item)
    }

    /// Marks the stream as finished and wakes whoever waits on it.
    pub fn finish(&self) {
        raise_flag(&self.finished);
        atomic_waker_wake(&self.ack.waker);
    }

    /// See [`Acknowledgement::poll_received`].
    pub fn poll_received(&self, waker: &Waker) -> (p: Poll<()>) {
        self.ack.poll_received(waker)
    }
}

/// Makes a connected pair: the producing side of a stream and the receiver
/// that catches its items. The stream starts out not finished. The sender
/// finishes the receiver's stream and watches the receiver's flag and waker.
pub fn stream_channel<T>() -> (pair: (StreamSender<T>, AsyncStreamReceiver<T>))
    ensures
        pair.0.acknowledgement().watches_stream(pair.1),
        pair.0.finishes(pair.1),
{
    let (sender, receiver) = unbounded_channel();
    let waker = Arc::new(atomic_waker_new());
    let received = Arc::new(AtomicBool::new(false));
    let finished = Arc::new(AtomicBool::new(false));
    let ack = Acknowledgement { received: arc_share(&received), waker: arc_share(&waker) };
    (
        StreamSender { sender, finished: arc_share(&finished), ack },
        AsyncStreamReceiver::from_parts(finished, waker, receiver, received),
    )
}

} // verus!
