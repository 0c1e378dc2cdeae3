//! One background task at a time, polled for its result.

use vstd::prelude::*;

use crate::error::TimeoutError;
use crate::poll::Poll;
use crate::receiver::AsyncReceiver;
use crate::receiver::TryRecv;

verus! {

/// Executes one async task at a time in the background: it holds the receiver
/// of the running task, if any, until the task's result has been handed out.
#[derive(Debug)]
#[verifier::reject_recursive_types(T)]
pub struct TaskRunner<T> {
    task: Option<AsyncReceiver<T>>,
}

impl<T> View for TaskRunner<T> {
    type V = Option<AsyncReceiver<T>>;

    /// The receiver of the running task; `None` while idle.
    closed spec fn view(&self) -> Option<AsyncReceiver<T>> {
        self.task
    }
}

impl<T> TaskRunner<T> {
    /// What one `poll` does: an idle runner reports `Pending` and stays idle;
    /// a running one either reports `Ready` and becomes idle, or reports
    /// `Pending` and keeps the same task.
    pub open spec fn poll_step(before: Option<AsyncReceiver<T>>, after: Option<AsyncReceiver<T>>, r: Poll<T>) -> bool {
        match before {
            None => after is None && r is Pending,
            Some(rx) => {
                ||| (r is Ready && after is None)
                ||| (r is Pending && after == Some(rx))
            },
        }
    }

    /// What `poll` does once the look into the running task's channel found
    /// `outcome`: a value is reported `Ready` and the runner becomes idle;
    /// anything else is reported `Pending` and the same task keeps running.
    /// An idle runner reports `Pending` and stays idle.
    pub open spec fn poll_outcome(
        before: Option<AsyncReceiver<T>>,
        outcome: TryRecv<T>,
        after: Option<AsyncReceiver<T>>,
        r: Poll<T>,
    ) -> bool {
        match before {
            None => after is None && r is Pending,
            Some(rx) => match outcome {
                TryRecv::Value(v) => after is None && r == Poll::Ready(v),
                _ => after == Some(rx) && r is Pending,
            },
        }
    }

    /// An idle runner.
    pub fn new() -> (runner: Self)
        ensures
            runner@ is None,
    {
        TaskRunner { task: None }
    }

    /// Returns whether the task runner is idle.
    pub fn is_idle(&self) -> (b: bool)
        ensures
            b == (self@ is None),
    {
        self.task.is_none()
    }

    /// Returns whether the task runner is pending (running, but not finished).
    pub fn is_pending(&self) -> (b: bool)
        ensures
            self@ is None ==> !b,
    {
        match &self.task {
            Some(rx) => !rx.is_received(),
            None => false,
        }
    }

    /// Returns whether the task runner is finished.
    pub fn is_finished(&self) -> (b: bool)
        ensures
            self@ is None ==> !b,
    {
        match &self.task {
            Some(rx) => rx.is_received(),
            None => false,
        }
    }

    /// Takes over the receiver of a task that has just been spawned in the
    /// background. A task already running is forgotten (not stopped).
    pub fn start(&mut self, receiver: AsyncReceiver<T>)
        ensures
            final(self)@ == Some(receiver),
    {
        self.task = Some(receiver);
    }

    /// Forgets the task being run. This does not stop the task.
    pub fn forget(&mut self)
        ensures
            final(self)@ is None,
    {
        self.task = None;
    }

    /// Polls the task runner for the current task status: `Ready` with the
    /// result, after which the runner is idle, or `Pending`.
    pub fn poll(&mut self) -> (r: Poll<T>)
        ensures
            Self::poll_step(old(self)@, final(self)@, r),
    {
        match self.task.take() {
            Some(rx) => {
                let mut rx = rx;
                let outcome = rx.look();
                self.task = Some(rx);
                self.poll_with(outcome)
            },
            None => Poll::Pending,
        }
    }

    /// Completes a poll whose look into the running task's channel found
    /// `outcome` (see [`TaskRunner::poll`]).
    pub fn poll_with(&mut self, outcome: TryRecv<T>) -> (r: Poll<T>)
        ensures
            Self::poll_outcome(old(self)@, outcome, final(self)@, r),
    {
        match self.task.take() {
            Some(rx) => {
                let mut rx = rx;
                match rx.accept(outcome) {
                    Some(v) => Poll::Ready(v),
                    None => {
                        self.task = Some(rx);
                        Poll::Pending
                    },
                }
            },
            None => Poll::Pending,
        }
    }
}

/// Executes one async task at a time in the background, with a timeout: the
/// result is `Err(TimeoutError)` if the task did not finish in time.
#[derive(Debug)]
#[verifier::reject_recursive_types(T)]
pub struct TimedTaskRunner<T> {
    runner: TaskRunner<Result<T, TimeoutError>>,
}

impl<T> View for TimedTaskRunner<T> {
    type V = Option<AsyncReceiver<Result<T, TimeoutError>>>;

    /// The receiver of the running task; `None` while idle.
    closed spec fn view(&self) -> Option<AsyncReceiver<Result<T, TimeoutError>>> {
        self.runner@
    }
}

impl<T> TimedTaskRunner<T> {
    /// An idle runner.
    pub fn new() -> (runner: Self)
        ensures
            runner@ is None,
    {
        TimedTaskRunner { runner: TaskRunner::new() }
    }

    /// Returns whether the task runner is idle.
    pub fn is_idle(&self) -> (b: bool)
        ensures
            b == (self@ is None),
    {
        self.runner.is_idle()
    }

    /// Returns whether the task runner is pending (running, but not finished).
    pub fn is_pending(&self) -> (b: bool)
        ensures
            self@ is None ==> !b,
    {
        self.runner.is_pending()
    }

    /// Returns whether the task runner is finished.
    pub fn is_finished(&self) -> (b: bool)
        ensures
            self@ is None ==> !b,
    {
        self.runner.is_finished()
    }

    /// Takes over the receiver of a timed task that has just been spawned in
    /// the background. A task already running is forgotten (not stopped).
    pub fn start(&mut self, receiver: AsyncReceiver<Result<T, TimeoutError>>)
        ensures
            final(self)@ == Some(receiver),
    {
        self.runner.start(receiver);
    }

    /// Forgets the task being run. This does not stop the task.
    pub fn forget(&mut self)
        ensures
            final(self)@ is None,
    {
        self.runner.forget();
    }

    /// Polls the task runner for the current task status, as
    /// [`TaskRunner::poll`] does.
    pub fn poll(&mut self) -> (r: Poll<Result<T, TimeoutError>>)
        ensures
            TaskRunner::poll_step(old(self)@, final(self)@, r),
    {
        self.runner.poll()
    }

    /// Completes a poll whose look into the running task's channel found
    /// `outcome`, as [`TaskRunner::poll_with`] does.
    pub fn poll_with(&mut self, outcome: TryRecv<Result<T, TimeoutError>>) -> (r: Poll<Result<T, TimeoutError>>)
        ensures
            TaskRunner::poll_outcome(old(self)@, outcome, final(self)@, r),
    {
        self.runner.poll_with(outcome)
    }
}

} // verus!
