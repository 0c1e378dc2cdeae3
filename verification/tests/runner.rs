use bevy_async_task::TryRecv;
use bevy_async_task::Poll;
use bevy_async_task::TaskRunner;
use bevy_async_task::TimedTaskRunner;
use bevy_async_task::TimeoutError;
use bevy_async_task::task_channel;

#[test]
fn runner_delivers_result_once() {
    let mut runner = TaskRunner::<u32>::new();
    assert!(runner.is_idle());
    assert!(!runner.is_pending());
    assert!(!runner.is_finished());
    assert_eq!(Poll::Pending, runner.poll());

    let (tx, rx) = task_channel::<u32>();
    runner.start(rx);
    assert!(!runner.is_idle());
    assert!(runner.is_pending());
    assert!(!runner.is_finished());
    assert_eq!(Poll::Pending, runner.poll());
    assert!(!runner.is_idle());

    assert!(tx.send(5).is_ok());
    assert_eq!(Poll::Ready(5), runner.poll());
    assert!(runner.is_idle());
    assert_eq!(Poll::Pending, runner.poll());
}

#[test]
fn runner_start_replaces_task() {
    let mut runner = TaskRunner::<&str>::new();
    let (tx1, rx1) = task_channel::<&str>();
    let (tx2, rx2) = task_channel::<&str>();
    runner.start(rx1);
    runner.start(rx2);
    // The first task's receiver is gone.
    assert!(tx1.send("first").is_err());
    assert!(tx2.send("second").is_ok());
    assert_eq!(Poll::Ready("second"), runner.poll());
}

#[test]
fn runner_forget() {
    let mut runner = TaskRunner::<u8>::new();
    let (tx, rx) = task_channel::<u8>();
    runner.start(rx);
    runner.forget();
    assert!(runner.is_idle());
    assert!(tx.send(1).is_err());
    assert_eq!(Poll::Pending, runner.poll());
}

#[test]
fn runner_stays_pending_when_sender_gone() {
    let mut runner = TaskRunner::<u8>::new();
    let (tx, rx) = task_channel::<u8>();
    runner.start(rx);
    drop(tx);
    assert_eq!(Poll::Pending, runner.poll());
    assert!(!runner.is_idle());
}

#[test]
fn timed_runner_reports_timeout() {
    let mut runner = TimedTaskRunner::<()>::new();
    assert!(runner.is_idle());
    let (tx, rx) = task_channel::<Result<(), TimeoutError>>();
    runner.start(rx);
    assert!(runner.is_pending());
    assert_eq!(Poll::Pending, runner.poll());
    assert!(tx.send(Err(TimeoutError)).is_ok());
    match runner.poll() {
        Poll::Ready(v) => assert!(matches!(v, Err(TimeoutError)), "timeout should have triggered!"),
        Poll::Pending => panic!("timeout"),
    }
    assert!(runner.is_idle());
}

#[test]
fn timed_runner_delivers_value() {
    let mut runner = TimedTaskRunner::<u32>::new();
    let (tx, rx) = task_channel::<Result<u32, TimeoutError>>();
    runner.start(rx);
    assert!(tx.send(Ok(100)).is_ok());
    assert_eq!(Poll::Ready(Ok(100)), runner.poll());
    runner.forget();
    assert!(runner.is_idle());
    assert!(!runner.is_finished());
}

#[test]
fn timeout_error_message() {
    assert_eq!("the future has timed out", TimeoutError.message());
}

#[test]
fn runner_poll_with_outcomes() {
    let mut runner = TaskRunner::<u32>::new();
    assert_eq!(Poll::Pending, runner.poll_with(TryRecv::Value(1)));
    assert!(runner.is_idle());

    let (_tx, rx) = task_channel::<u32>();
    runner.start(rx);
    assert_eq!(Poll::Pending, runner.poll_with(TryRecv::Empty));
    assert!(!runner.is_idle());
    assert_eq!(Poll::Pending, runner.poll_with(TryRecv::Closed));
    assert!(!runner.is_idle());
    assert_eq!(Poll::Ready(9), runner.poll_with(TryRecv::Value(9)));
    assert!(runner.is_idle());

    let mut timed = TimedTaskRunner::<u32>::new();
    let (_tx2, rx2) = task_channel::<Result<u32, TimeoutError>>();
    timed.start(rx2);
    assert_eq!(Poll::Ready(Err(TimeoutError)), timed.poll_with(TryRecv::Value(Err(TimeoutError))));
    assert!(timed.is_idle());
}
