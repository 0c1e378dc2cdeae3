//! Many similar tasks running in the background at once, polled together.

use vstd::prelude::*;

use crate::error::TimeoutError;
use crate::poll::Poll;
use crate::receiver::AsyncReceiver;
use crate::receiver::TryRecv;

verus! {

/// The tasks of `tasks` that were reported `Pending` in `statuses`, in their
/// order. `statuses[i]` is the status of `tasks[i]`.
pub open spec fn still_pending<A, T>(tasks: Seq<A>, statuses: Seq<Poll<T>>) -> Seq<A>
    decreases tasks.len(),
{
    if tasks.len() == 0 {
        Seq::empty()
    } else {
        let rest = still_pending(tasks.drop_last(), statuses.drop_last());
        if statuses.last() is Pending {
            rest.push(tasks.last())
        } else {
            rest
        }
    }
}

/// The status that a look into a task's channel leads to: a value is
/// reported `Ready`, anything else `Pending`.
pub open spec fn status_of<T>(outcome: TryRecv<T>) -> Poll<T> {
    match outcome {
        TryRecv::Value(v) => Poll::Ready(v),
        _ => Poll::Pending,
    }
}

/// The `i`-th of `outcomes`, or `Empty` past their end.
pub open spec fn outcome_at<T>(outcomes: Seq<TryRecv<T>>, i: int) -> TryRecv<T> {
    if 0 <= i < outcomes.len() {
        outcomes[i]
    } else {
        TryRecv::Empty
    }
}

/// How many of `statuses` are `Pending`.
pub open spec fn count_pending<T>(statuses: Seq<Poll<T>>) -> nat
    decreases statuses.len(),
{
    if statuses.len() == 0 {
        0
    } else {
        count_pending(statuses.drop_last()) + if statuses.last() is Pending { 1nat } else { 0nat }
    }
}

/// Executes many similar tasks in the background simultaneously: each spawned
/// task's receiver is kept until its result has been handed out.
#[derive(Debug)]
#[verifier::reject_recursive_types(T)]
pub struct TaskPool<T> {
    tasks: Vec<AsyncReceiver<T>>,
}

impl<T> View for TaskPool<T> {
    type V = Seq<AsyncReceiver<T>>;

    /// The receivers of the tasks still running, oldest first.
    closed spec fn view(&self) -> Seq<AsyncReceiver<T>> {
        self.tasks@
    }
}

impl<T> TaskPool<T> {
    /// What one `iter_poll` does: one status per task, in order, and the tasks
    /// reported `Pending` stay, in order, while the others leave.
    pub open spec fn iter_poll_step(
        before: Seq<AsyncReceiver<T>>,
        after: Seq<AsyncReceiver<T>>,
        statuses: Seq<Poll<T>>,
    ) -> bool {
        &&& statuses.len() == before.len()
        &&& after == still_pending(before, statuses)
    }

    /// What one `iter_poll_with` does, given the outcomes of the looks into
    /// the tasks' channels: one status per task, the `i`-th being `Ready` with
    /// the value that the `i`-th look found, or `Pending`; the tasks reported
    /// `Pending` stay, in order, and the others leave.
    pub open spec fn iter_poll_with_step(
        before: Seq<AsyncReceiver<T>>,
        outcomes: Seq<TryRecv<T>>,
        after: Seq<AsyncReceiver<T>>,
        statuses: Seq<Poll<T>>,
    ) -> bool {
        &&& statuses.len() == before.len()
        &&& forall|i: int| 0 <= i < statuses.len() ==> statuses[i] == status_of(outcome_at(outcomes, i))
        &&& after == still_pending(before, statuses)
    }

    /// An empty pool.
    pub fn new() -> (pool: Self)
        ensures
            pool@ == Seq::<AsyncReceiver<T>>::empty(),
    {
        TaskPool { tasks: Vec::new() }
    }

    /// Returns whether the task pool is idle.
    pub fn is_idle(&self) -> (b: bool)
        ensures
            b == (self@.len() == 0),
    {
        self.tasks.len() == 0
    }

    /// Adds the receiver of a task that has just been spawned in the background.
    pub fn spawn(&mut self, receiver: AsyncReceiver<T>)
        ensures
            final(self)@ == old(self)@.push(receiver),
    {
        self.tasks.push(receiver);
    }

    /// Polls every task once, in order. A task that has produced its result
    /// reports `Ready` with it and leaves the pool; the others report
    /// `Pending` and stay, in their order.
    pub fn iter_poll(&mut self) -> (statuses: Vec<Poll<T>>)
        ensures
            Self::iter_poll_step(old(self)@, final(self)@, statuses@),
    {
        let mut tasks: Vec<AsyncReceiver<T>> = Vec::new();
        std::mem::swap(&mut tasks, &mut self.tasks);
        let ghost before = tasks@;
        let mut looked: Vec<AsyncReceiver<T>> = Vec::new();
        let mut outcomes: Vec<TryRecv<T>> = Vec::new();
        for rx in it: tasks
            invariant
                it.seq() == before,
                looked@ == before.take(it.index() as int),
                outcomes@.len() == it.index(),
        {
            let mut rx = rx;
            let ghost done = it.index();
            let outcome = rx.look();
            looked.push(rx);
            outcomes.push(outcome);
            proof {
                assert(looked@ =~= before.take(done + 1));
            }
        }
        proof {
            assert(before.take(before.len() as int) =~= before);
        }
        self.tasks = looked;
        self.iter_poll_with(outcomes)
    }

    /// Completes a poll whose looks into the tasks' channels found `outcomes`
    /// (`outcomes[i]` for the `i`-th task; a missing one counts as `Empty`):
    /// the `i`-th status is `Ready` with the value that the `i`-th look found,
    /// or `Pending`; the tasks reported `Pending` stay, in order, and the others
    /// leave.
    pub fn iter_poll_with(&mut self, outcomes: Vec<TryRecv<T>>) -> (statuses: Vec<Poll<T>>)
        ensures
            statuses@.len() == old(self)@.len(),
            forall|i: int|
                0 <= i < statuses@.len() ==> statuses@[i] == status_of(outcome_at(outcomes@, i)),
            final(self)@ == still_pending(old(self)@, statuses@),
            Self::iter_poll_with_step(old(self)@, outcomes@, final(self)@, statuses@),
    {
        let mut tasks: Vec<AsyncReceiver<T>> = Vec::new();
        std::mem::swap(&mut tasks, &mut self.tasks);
        let ghost before = tasks@;
        let ghost given = outcomes@;
        let mut outcomes = outcomes;
        let mut kept: Vec<AsyncReceiver<T>> = Vec::new();
        let mut statuses: Vec<Poll<T>> = Vec::new();
        for rx in it: tasks
            invariant
                it.seq() == before,
                statuses@.len() == it.index(),
                kept@ == still_pending(before.take(it.index() as int), statuses@),
                outcomes@.len() == given.len(),
                forall|j: int| it.index() <= j < given.len() ==> outcomes@[j] == given[j],
                forall|j: int|
                    0 <= j < it.index() ==> statuses@[j] == status_of(outcome_at(given, j)),
        {
            let mut rx = rx;
            let ghost done = it.index();
            let ghost statuses_before = statuses@;
            let i = statuses.len();
            let mut outcome: TryRecv<T> = TryRecv::Empty;
            if i < outcomes.len() {
                outcomes.set_and_swap(i, &mut outcome);
            }
            assert(outcome == outcome_at(given, i as int));
            match rx.accept(outcome) {
                Some(v) => {
                    statuses.push(Poll::Ready(v));
                },
                None => {
                    statuses.push(Poll::Pending);
                    kept.push(rx);
                },
            }
            proof {
                assert(before.take(done + 1).drop_last() =~= before.take(done as int));
                assert(statuses@.drop_last() =~= statuses_before);
            }
        }
        proof {
            assert(before.take(before.len() as int) =~= before);
        }
        self.tasks = kept;
        statuses
    }

    /// Forgets all tasks being run. This does not stop any task.
    pub fn forget_all(&mut self)
        ensures
            final(self)@ == Seq::<AsyncReceiver<T>>::empty(),
    {
        self.tasks.clear();
    }
}

/// Executes many similar tasks in the background simultaneously, each with a
/// timeout: a task's result is `Err(TimeoutError)` if it did not finish in time.
#[derive(Debug)]
#[verifier::reject_recursive_types(T)]
pub struct TimedTaskPool<T> {
    pool: TaskPool<Result<T, TimeoutError>>,
}

impl<T> View for TimedTaskPool<T> {
    type V = Seq<AsyncReceiver<Result<T, TimeoutError>>>;

    /// The receivers of the tasks still running, oldest first.
    closed spec fn view(&self) -> Seq<AsyncReceiver<Result<T, TimeoutError>>> {
        self.pool@
    }
}

impl<T> TimedTaskPool<T> {
    /// An empty pool.
    pub fn new() -> (pool: Self)
        ensures
            pool@ == Seq::<AsyncReceiver<Result<T, TimeoutError>>>::empty(),
    {
        TimedTaskPool { pool: TaskPool::new() }
    }

    /// Returns whether the task pool is idle.
    pub fn is_idle(&self) -> (b: bool)
        ensures
            b == (self@.len() == 0),
    {
        self.pool.is_idle()
    }

    /// Adds the receiver of a timed task that has just been spawned in the
    /// background.
    pub fn spawn(&mut self, receiver: AsyncReceiver<Result<T, TimeoutError>>)
        ensures
            final(self)@ == old(self)@.push(receiver),
    {
        self.pool.spawn(receiver);
    }

    /// Polls every task once, in order, as [`TaskPool::iter_poll`] does.
    pub fn iter_poll(&mut self) -> (statuses: Vec<Poll<Result<T, TimeoutError>>>)
        ensures
            TaskPool::iter_poll_step(old(self)@, final(self)@, statuses@),
    {
        self.pool.iter_poll()
    }

    /// Completes a poll whose looks into the tasks' channels found `outcomes`,
    /// as [`TaskPool::iter_poll_with`] does: a delivered `Ok` or `Err` result
    /// is reported `Ready` with it, anything else `Pending`.
    pub fn iter_poll_with(
        &mut self,
        outcomes: Vec<TryRecv<Result<T, TimeoutError>>>,
    ) -> (statuses: Vec<Poll<Result<T, TimeoutError>>>)
        ensures
            statuses@.len() == old(self)@.len(),
            forall|i: int|
                0 <= i < statuses@.len() ==> statuses@[i] == status_of(outcome_at(outcomes@, i)),
            final(self)@ == still_pending(old(self)@, statuses@),
            TaskPool::iter_poll_with_step(old(self)@, outcomes@, final(self)@, statuses@),
    {
        self.pool.iter_poll_with(outcomes)
    }

    /// Forgets all tasks being run. This does not stop any task.
    pub fn forget_all(&mut self)
        ensures
            final(self)@ == Seq::<AsyncReceiver<Result<T, TimeoutError>>>::empty(),
    {
        self.pool.forget_all();
    }
}

} // verus!
