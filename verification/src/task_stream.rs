//! One background stream at a time, polled for its items.

use vstd::prelude::*;

use crate::poll::Poll;
use crate::receiver::AsyncStreamReceiver;
use crate::receiver::TryRecv;

verus! {

/// Executes one async stream at a time in the background: it holds the
/// receiver of the running stream, if any, until the stream has finished.
#[derive(Debug)]
#[verifier::reject_recursive_types(T)]
pub struct TaskStream<T> {
    stream: Option<AsyncStreamReceiver<T>>,
}

impl<T> View for TaskStream<T> {
    type V = Option<AsyncStreamReceiver<T>>;

    /// The receiver of the running stream (started and not yet reported
    /// finished); `None` while idle.
    closed spec fn view(&self) -> Option<AsyncStreamReceiver<T>> {
        self.stream
    }
}

impl<T> TaskStream<T> {
    /// What one `poll_next` does: an idle stream reports `Ready(None)` and
    /// stays idle; a running one reports an item and keeps the same receiver,
    /// reports `Pending` and keeps a receiver with the same shared cells, or
    /// reports `Ready(None)` and becomes idle.
    pub open spec fn poll_next_step(
        before: Option<AsyncStreamReceiver<T>>,
        after: Option<AsyncStreamReceiver<T>>,
        r: Poll<Option<T>>,
    ) -> bool {
        match before {
            None => after is None && r == Poll::<Option<T>>::Ready(None),
            Some(rx) => {
                ||| (r matches Poll::Ready(Some(_)) && after == Some(rx))
                ||| (r is Pending && (after matches Some(a) && a.signals() == rx.signals()))
                ||| (r == Poll::<Option<T>>::Ready(None) && after is None)
            },
        }
    }

    /// What `poll_next` does once the look into the running stream's channel
    /// found `outcome` and the stream's finished flag read `finished`: an item
    /// is reported and the stream keeps running; otherwise a finished stream
    /// reports `Ready(None)` and the runner becomes idle, and an unfinished one
    /// reports `Pending` and keeps running. An idle runner reports
    /// `Ready(None)` and stays idle.
    pub open spec fn poll_next_outcome(
        before: Option<AsyncStreamReceiver<T>>,
        outcome: TryRecv<T>,
        finished: bool,
        after: Option<AsyncStreamReceiver<T>>,
        r: Poll<Option<T>>,
    ) -> bool {
        match before {
            None => after is None && r == Poll::<Option<T>>::Ready(None),
            Some(rx) => match outcome {
                TryRecv::Value(x) => r == Poll::Ready(Some(x)) && after == Some(rx),
                _ => if finished {
                    r == Poll::<Option<T>>::Ready(None) && after is None
                } else {
                    r is Pending && after == Some(rx)
                },
            },
        }
    }

    /// An idle stream runner.
    pub fn new() -> (s: Self)
        ensures
            s@ is None,
    {
        TaskStream { stream: None }
    }

    /// Returns whether the stream is idle (not started).
    pub fn is_idle(&self) -> (b: bool)
        ensures
            b == (self@ is None),
    {
        self.stream.is_none()
    }

    /// Returns whether the stream is pending (running, but not finished).
    pub fn is_pending(&self) -> (b: bool)
        ensures
            self@ is None ==> !b,
    {
        let finished = match &self.stream {
            Some(rx) => rx.is_finished(),
            None => false,
        };
        self.is_pending_with(finished)
    }

    /// Whether the stream is pending, given the value that a read of the
    /// running stream's finished flag gave: a running stream is pending
    /// exactly when it has not finished; an idle runner is not pending.
    pub fn is_pending_with(&self, finished: bool) -> (b: bool)
        ensures
            b == (self@ is Some && !finished),
    {
        self.stream.is_some() && !finished
    }

    /// Returns whether the stream is finished.
    pub fn is_finished(&self) -> (b: bool)
        ensures
            self@ is None ==> !b,
    {
        let finished = match &self.stream {
            Some(rx) => rx.is_finished(),
            None => false,
        };
        self.is_finished_with(finished)
    }

    /// Whether the stream is finished, given the value that a read of the
    /// running stream's finished flag gave: a running stream is finished
    /// exactly when the flag is raised; an idle runner is not finished.
    pub fn is_finished_with(&self, finished: bool) -> (b: bool)
        ensures
            b == (self@ is Some && finished),
    {
        self.stream.is_some() && finished
    }

    /// Takes over the receiver of a stream that has just been spawned in the
    /// background. A stream already running is dropped and replaced.
    pub fn start(&mut self, receiver: AsyncStreamReceiver<T>)
        ensures
            final(self)@ == Some(receiver),
    {
        self.stream = Some(receiver);
    }

    /// Forgets the stream being run. This does not stop the stream.
    pub fn forget(&mut self)
        ensures
            final(self)@ is None,
    {
        self.stream = None;
    }

    /// Polls for the next item: `Ready(Some(item))` if an item is available,
    /// `Ready(None)` if the stream is finished (the runner is then idle) or
    /// was never started, `Pending` while waiting.
    pub fn poll_next(&mut self) -> (r: Poll<Option<T>>)
        ensures
            Self::poll_next_step(old(self)@, final(self)@, r),
    {
        match self.stream.take() {
            Some(rx) => {
                let mut rx = rx;
                let outcome = rx.look();
                let finished = match &outcome {
                    TryRecv::Value(_) => false,
                    _ => rx.is_finished(),
                };
                self.stream = Some(rx);
                self.poll_next_with(outcome, finished)
            },
            None => Poll::Ready(None),
        }
    }

    /// Completes a poll whose look into the running stream's channel found
    /// `outcome` and whose read of the stream's finished flag gave `finished`
    /// (see [`TaskStream::poll_next`]).
    pub fn poll_next_with(&mut self, outcome: TryRecv<T>, finished: bool) -> (r: Poll<Option<T>>)
        ensures
            Self::poll_next_outcome(old(self)@, outcome, finished, final(self)@, r),
    {
        match self.stream.take() {
            Some(rx) => {
                let mut rx = rx;
                match rx.accept(outcome) {
                    Some(item) => {
                        self.stream = Some(rx);
                        Poll::Ready(Some(item))
                    },
                    None => {
                        if finished {
                            Poll::Ready(None)
                        } else {
                            self.stream = Some(rx);
                            Poll::Pending
                        }
                    },
                }
            },
            None => Poll::Ready(None),
        }
    }
}

} // verus!
