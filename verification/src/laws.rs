//! Properties that span several calls on the runners and the pool, proved over
//! the contracts of their operations.

use vstd::prelude::*;

use crate::poll::Poll;
use crate::receiver::AsyncReceiver;
use crate::receiver::AsyncStreamReceiver;
use crate::receiver::TryRecv;
use crate::task_pool::TaskPool;
use crate::task_pool::count_pending;
use crate::task_pool::outcome_at;
use crate::task_pool::still_pending;
use crate::task_runner::TaskRunner;
use crate::task_stream::TaskStream;

verus! {

/// A runner hands out a task's result at most once: right after a poll that
/// reported `Ready`, the runner is idle, so the next poll reports `Pending`
/// (until another task is started).
pub proof fn runner_result_handed_out_once<T>(
    s0: Option<AsyncReceiver<T>>,
    s1: Option<AsyncReceiver<T>>,
    r1: Poll<T>,
    s2: Option<AsyncReceiver<T>>,
    r2: Poll<T>,
)
    requires
        TaskRunner::poll_step(s0, s1, r1),
        r1 is Ready,
        TaskRunner::poll_step(s1, s2, r2),
    ensures
        s1 is None,
        r2 is Pending,
        s2 is None,
{
}

/// A started task stays in its runner until its result is handed out: every
/// poll that reports `Pending` leaves the same task running.
pub proof fn runner_keeps_task_until_ready<T>(
    rx: AsyncReceiver<T>,
    after: Option<AsyncReceiver<T>>,
    r: Poll<T>,
)
    requires
        TaskRunner::poll_step(Some(rx), after, r),
    ensures
        r is Pending ==> after == Some(rx),
        r is Ready ==> after is None,
{
}

/// An idle runner stays idle and reports `Pending` however often it is polled.
pub proof fn idle_runner_stays_idle<T>(after: Option<AsyncReceiver<T>>, r: Poll<T>)
    requires
        TaskRunner::poll_step(None, after, r),
    ensures
        after is None,
        r is Pending,
{
}

/// The tasks kept after a poll are exactly as many as the `Pending` statuses.
pub proof fn still_pending_len<A, T>(tasks: Seq<A>, statuses: Seq<Poll<T>>)
    requires
        tasks.len() == statuses.len(),
    ensures
        still_pending(tasks, statuses).len() == count_pending(statuses),
    decreases tasks.len(),
{
    if tasks.len() > 0 {
        still_pending_len(tasks.drop_last(), statuses.drop_last());
    }
}

/// Every task kept after a poll was in the pool before, reported `Pending`.
pub proof fn still_pending_are_pending<A, T>(tasks: Seq<A>, statuses: Seq<Poll<T>>, k: int)
    requires
        tasks.len() == statuses.len(),
        0 <= k < still_pending(tasks, statuses).len(),
    ensures
        exists|i: int|
            0 <= i < tasks.len() && statuses[i] is Pending && tasks[i] == #[trigger] still_pending(
                tasks,
                statuses,
            )[k],
    decreases tasks.len(),
{
    let n = tasks.len() - 1;
    let rest = still_pending(tasks.drop_last(), statuses.drop_last());
    still_pending_len(tasks.drop_last(), statuses.drop_last());
    if k < rest.len() {
        still_pending_are_pending(tasks.drop_last(), statuses.drop_last(), k);
        let i = choose|i: int|
            0 <= i < tasks.drop_last().len() && statuses.drop_last()[i] is Pending
                && tasks.drop_last()[i] == #[trigger] rest[k];
        assert(statuses[i] is Pending && tasks[i] == still_pending(tasks, statuses)[k]);
    } else {
        assert(statuses[n] is Pending && tasks[n] == still_pending(tasks, statuses)[k]);
    }
}

/// A pool hands out each task's result at most once: a second poll reports
/// exactly one status for each task that the first poll reported `Pending`,
/// so the tasks reported `Ready` are gone.
pub proof fn pool_results_handed_out_once<T>(
    s0: Seq<AsyncReceiver<T>>,
    s1: Seq<AsyncReceiver<T>>,
    st1: Seq<Poll<T>>,
    s2: Seq<AsyncReceiver<T>>,
    st2: Seq<Poll<T>>,
)
    requires
        TaskPool::iter_poll_step(s0, s1, st1),
        TaskPool::iter_poll_step(s1, s2, st2),
    ensures
        s1.len() == count_pending(st1),
        st2.len() == count_pending(st1),
        s2.len() <= s1.len(),
{
    still_pending_len(s0, st1);
    still_pending_len(s1, st2);
    count_pending_bound(st2);
}

/// No more statuses are `Pending` than there are statuses.
pub proof fn count_pending_bound<T>(statuses: Seq<Poll<T>>)
    ensures
        count_pending(statuses) <= statuses.len(),
    decreases statuses.len(),
{
    if statuses.len() > 0 {
        count_pending_bound(statuses.drop_last());
    }
}

/// A poll leaves the pool idle exactly when it reported every task `Ready`.
pub proof fn pool_idle_after_poll_iff_all_ready<T>(
    before: Seq<AsyncReceiver<T>>,
    after: Seq<AsyncReceiver<T>>,
    statuses: Seq<Poll<T>>,
)
    requires
        TaskPool::iter_poll_step(before, after, statuses),
    ensures
        after.len() == 0 <==> forall|i: int| 0 <= i < statuses.len() ==> #[trigger] statuses[i] is Ready,
{
    still_pending_len(before, statuses);
    count_pending_zero(statuses);
}

/// No status is `Pending` exactly when every status is `Ready`.
pub proof fn count_pending_zero<T>(statuses: Seq<Poll<T>>)
    ensures
        count_pending(statuses) == 0 <==> forall|i: int|
            0 <= i < statuses.len() ==> #[trigger] statuses[i] is Ready,
    decreases statuses.len(),
{
    if statuses.len() > 0 {
        let init = statuses.drop_last();
        count_pending_zero(init);
        if count_pending(statuses) == 0 {
            assert forall|i: int| 0 <= i < statuses.len() implies #[trigger] statuses[i] is Ready by {
                if i < init.len() {
                    assert(init[i] == statuses[i]);
                }
            }
        } else {
            if statuses.last() is Ready {
                let j = choose|j: int| 0 <= j < init.len() && !(#[trigger] init[j] is Ready);
                assert(statuses[j] == init[j]);
            }
        }
    }
}

/// A task spawned into a pool is polled last in the next poll, after all the
/// tasks spawned before it; if it reports `Pending` it stays, behind those
/// that stayed.
pub proof fn pool_spawned_task_polled_last<T>(
    before: Seq<AsyncReceiver<T>>,
    rx: AsyncReceiver<T>,
    after: Seq<AsyncReceiver<T>>,
    statuses: Seq<Poll<T>>,
)
    requires
        TaskPool::iter_poll_step(before.push(rx), after, statuses),
    ensures
        statuses.len() == before.len() + 1,
        statuses.last() is Pending ==> after == still_pending(before, statuses.drop_last()).push(rx),
        statuses.last() is Ready ==> after == still_pending(before, statuses.drop_last()),
{
    assert(before.push(rx).drop_last() =~= before);
}

/// A stream runner reports the end of its stream once: after `Ready(None)` it
/// is idle, and every later poll also reports `Ready(None)` until a new stream
/// is started.
pub proof fn stream_end_is_final<T>(
    s0: Option<AsyncStreamReceiver<T>>,
    s1: Option<AsyncStreamReceiver<T>>,
    r1: Poll<Option<T>>,
    s2: Option<AsyncStreamReceiver<T>>,
    r2: Poll<Option<T>>,
)
    requires
        TaskStream::poll_next_step(s0, s1, r1),
        r1 == Poll::<Option<T>>::Ready(None),
        TaskStream::poll_next_step(s1, s2, r2),
    ensures
        s1 is None,
        s2 is None,
        r2 == Poll::<Option<T>>::Ready(None),
{
}

/// A running stream stays running while it hands out items or waits: only a
/// poll that reports `Ready(None)` ends it.
pub proof fn stream_runs_until_end<T>(
    rx: AsyncStreamReceiver<T>,
    after: Option<AsyncStreamReceiver<T>>,
    r: Poll<Option<T>>,
)
    requires
        TaskStream::poll_next_step(Some(rx), after, r),
    ensures
        after is None <==> r == Poll::<Option<T>>::Ready(None),
{
}

/// A pool reports a task `Ready` exactly when the look into that task's
/// channel found a value, and then with that very value: a task whose result
/// has arrived is never reported `Pending`, and no task is reported `Ready`
/// with a value (or a timeout) that its channel did not hold.
pub proof fn pool_ready_exactly_for_found_values<T>(
    before: Seq<AsyncReceiver<T>>,
    outcomes: Seq<TryRecv<T>>,
    after: Seq<AsyncReceiver<T>>,
    statuses: Seq<Poll<T>>,
    i: int,
)
    requires
        TaskPool::iter_poll_with_step(before, outcomes, after, statuses),
        0 <= i < before.len(),
    ensures
        statuses[i] is Ready <==> outcome_at(outcomes, i) is Value,
        forall|v: T| #[trigger] outcome_at(outcomes, i) == TryRecv::Value(v) <==> statuses[i] == Poll::Ready(v),
{
}

/// The tasks whose results were found leave the pool, and only they: the pool
/// keeps one task per look that found no value, and becomes idle exactly when
/// every look found a value.
pub proof fn pool_found_values_leave<T>(
    before: Seq<AsyncReceiver<T>>,
    outcomes: Seq<TryRecv<T>>,
    after: Seq<AsyncReceiver<T>>,
    statuses: Seq<Poll<T>>,
)
    requires
        TaskPool::iter_poll_with_step(before, outcomes, after, statuses),
    ensures
        after.len() == count_pending(statuses),
        after.len() == 0 <==> forall|i: int|
            0 <= i < before.len() ==> #[trigger] outcome_at(outcomes, i) is Value,
{
    still_pending_len(before, statuses);
    count_pending_zero(statuses);
    assert forall|i: int| 0 <= i < before.len() implies (#[trigger] outcome_at(outcomes, i) is Value
        <==> statuses[i] is Ready) by {
        pool_ready_exactly_for_found_values(before, outcomes, after, statuses, i);
    }
}

/// Given one read of a stream's finished flag, a stream runner is in exactly
/// one of three states: idle, pending (running, flag not raised) or finished
/// (running, flag raised).
pub proof fn stream_status_exactly_one<T>(
    s: Option<AsyncStreamReceiver<T>>,
    flag: bool,
    idle: bool,
    pending: bool,
    finished: bool,
)
    requires
        idle == (s is None),
        pending == (s is Some && !flag),
        finished == (s is Some && flag),
    ensures
        (idle && !pending && !finished) || (!idle && pending && !finished) || (!idle && !pending
            && finished),
        s is Some ==> pending == !finished,
{
}

/// A stream that is pending (its finished flag not raised) and has no item
/// queued keeps running when polled, and reports `Pending`; a finished one with
/// no item queued ends, and reports `Ready(None)`. An item found is always
/// handed out, finished or not.
pub proof fn stream_poll_follows_flag<T>(
    rx: AsyncStreamReceiver<T>,
    outcome: TryRecv<T>,
    flag: bool,
    after: Option<AsyncStreamReceiver<T>>,
    r: Poll<Option<T>>,
)
    requires
        TaskStream::poll_next_outcome(Some(rx), outcome, flag, after, r),
    ensures
        outcome matches TryRecv::Value(x) ==> r == Poll::Ready(Some(x)) && after == Some(rx),
        !(outcome is Value) && !flag ==> r is Pending && after == Some(rx),
        !(outcome is Value) && flag ==> r == Poll::<Option<T>>::Ready(None) && after is None,
{
}

} // verus!
