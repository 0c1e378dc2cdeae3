use bevy_async_task::TryRecv;
use bevy_async_task::Poll;
use bevy_async_task::TaskPool;
use bevy_async_task::TimedTaskPool;
use bevy_async_task::TimeoutError;
use bevy_async_task::task_channel;

#[test]
fn pool_reports_each_task_in_order() {
    let mut pool = TaskPool::<u64>::new();
    assert!(pool.is_idle());
    assert!(pool.iter_poll().is_empty());

    let mut senders = Vec::new();
    for _ in 0..3 {
        let (tx, rx) = task_channel::<u64>();
        pool.spawn(rx);
        senders.push(Some(tx));
    }
    assert!(!pool.is_idle());

    let second = senders[1].take().unwrap();
    assert!(second.send(2).is_ok());
    assert_eq!(vec![Poll::Pending, Poll::Ready(2), Poll::Pending], pool.iter_poll());

    // The finished task left; the other two stay, in order.
    assert_eq!(vec![Poll::Pending, Poll::Pending], pool.iter_poll());
    let third = senders[2].take().unwrap();
    assert!(third.send(3).is_ok());
    let first = senders[0].take().unwrap();
    assert!(first.send(1).is_ok());
    assert_eq!(vec![Poll::Ready(1), Poll::Ready(3)], pool.iter_poll());
    assert!(pool.is_idle());
    assert!(pool.iter_poll().is_empty());
}

#[test]
fn pool_forget_all() {
    let mut pool = TaskPool::<u8>::new();
    let (tx, rx) = task_channel::<u8>();
    pool.spawn(rx);
    pool.forget_all();
    assert!(pool.is_idle());
    assert!(tx.send(1).is_err());
    assert!(pool.iter_poll().is_empty());
}

#[test]
fn timed_pool_mixes_values_and_timeouts() {
    let mut pool = TimedTaskPool::<u32>::new();
    let (tx1, rx1) = task_channel::<Result<u32, TimeoutError>>();
    let (tx2, rx2) = task_channel::<Result<u32, TimeoutError>>();
    let (_tx3, rx3) = task_channel::<Result<u32, TimeoutError>>();
    pool.spawn(rx1);
    pool.spawn(rx2);
    pool.spawn(rx3);
    assert!(tx1.send(Err(TimeoutError)).is_ok());
    assert!(tx2.send(Ok(8)).is_ok());
    assert_eq!(
        vec![Poll::Ready(Err(TimeoutError)), Poll::Ready(Ok(8)), Poll::Pending],
        pool.iter_poll()
    );
    assert!(!pool.is_idle());
    pool.forget_all();
    assert!(pool.is_idle());
}

#[test]
fn pool_iter_poll_with_outcomes() {
    let mut pool = TaskPool::<u64>::new();
    let (_tx1, rx1) = task_channel::<u64>();
    let (_tx2, rx2) = task_channel::<u64>();
    let (_tx3, rx3) = task_channel::<u64>();
    pool.spawn(rx1);
    pool.spawn(rx2);
    pool.spawn(rx3);
    // The third outcome is missing and counts as `Empty`.
    let statuses = pool.iter_poll_with(vec![TryRecv::Closed, TryRecv::Value(20)]);
    assert_eq!(vec![Poll::Pending, Poll::Ready(20), Poll::Pending], statuses);
    let statuses = pool.iter_poll_with(vec![TryRecv::Value(10), TryRecv::Value(30), TryRecv::Value(99)]);
    assert_eq!(vec![Poll::Ready(10), Poll::Ready(30)], statuses);
    assert!(pool.is_idle());

    let mut timed = TimedTaskPool::<u32>::new();
    let (_t1, r1) = task_channel::<Result<u32, TimeoutError>>();
    let (_t2, r2) = task_channel::<Result<u32, TimeoutError>>();
    timed.spawn(r1);
    timed.spawn(r2);
    let statuses = timed.iter_poll_with(vec![TryRecv::Value(Err(TimeoutError)), TryRecv::Value(Ok(3))]);
    assert_eq!(vec![Poll::Ready(Err(TimeoutError)), Poll::Ready(Ok(3))], statuses);
    assert!(timed.is_idle());
}
