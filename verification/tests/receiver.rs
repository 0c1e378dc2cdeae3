use bevy_async_task::Poll;
use bevy_async_task::TryRecv;
use bevy_async_task::task_channel;
use futures::task::noop_waker_ref;

#[test]
fn task_test_oneshot() {
    let (tx, rx) = futures::channel::oneshot::channel();
    if tx.send(3).is_err() {
        panic!("the receiver dropped");
    }
    match futures::executor::block_on(rx) {
        Ok(v) => assert_eq!(3, v),
        Err(e) => panic!("the sender dropped ({e})"),
    }
}

#[test]
fn task_test_try_recv() {
    let (tx, mut rx) = task_channel::<u32>();
    assert_eq!(None, rx.try_recv());
    let ack = match tx.send(5) {
        Ok(ack) => ack,
        Err(_) => panic!("the receiver dropped"),
    };
    assert_eq!(Some(5), rx.try_recv());
    assert!(rx.is_received());
    assert_eq!(Poll::Ready(()), ack.poll_received(noop_waker_ref()));
}

#[test]
fn result_is_handed_out_once() {
    let (tx, mut rx) = task_channel::<&str>();
    assert!(tx.send("done").is_ok());
    assert_eq!(Some("done"), rx.try_recv());
    assert_eq!(None, rx.try_recv());
    assert_eq!(None, rx.try_recv());
}

#[test]
fn producer_waits_until_result_is_taken() {
    let (tx, mut rx) = task_channel::<u8>();
    assert!(!rx.is_received());
    let ack = tx.send(7).ok().unwrap();
    assert_eq!(Poll::Pending, ack.poll_received(noop_waker_ref()));
    assert!(!rx.is_received());
    assert_eq!(Some(7), rx.try_recv());
    assert_eq!(Poll::Ready(()), ack.poll_received(noop_waker_ref()));
}

#[test]
fn send_to_dropped_receiver_gives_value_back() {
    let (tx, rx) = task_channel::<u64>();
    drop(rx);
    match tx.send(42) {
        Ok(_) => panic!("the receiver was dropped"),
        Err(v) => assert_eq!(42, v),
    }
}

#[test]
fn receiver_sees_closed_when_sender_dropped() {
    let (tx, mut rx) = task_channel::<u64>();
    drop(tx);
    assert_eq!(None, rx.try_recv());
    assert!(!rx.is_received());
}

#[test]
fn accept_hands_out_only_values() {
    let (_tx, mut rx) = task_channel::<i32>();
    assert_eq!(None, rx.accept(TryRecv::Empty));
    assert!(!rx.is_received());
    assert_eq!(None, rx.accept(TryRecv::Closed));
    assert!(!rx.is_received());
    assert_eq!(Some(-4), rx.accept(TryRecv::Value(-4)));
    assert!(rx.is_received());
}
