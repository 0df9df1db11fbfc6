use quant_exchange::priority::{channel, QueueCapacity, Receiver, RecvError, SendError, TrySendError};

#[test]
fn high_priority_first_then_low_in_order() {
    let (mut tx, mut rx) = channel::<&str>(QueueCapacity::Bounded(2));
    assert!(tx.try_send_low_priority("a").is_ok());
    assert!(tx.send_high_priority("X").is_ok());
    assert!(tx.try_send_low_priority("b").is_ok());
    assert_eq!(rx.try_recv(), Ok("X"));
    assert_eq!(rx.try_recv(), Ok("a"));
    assert_eq!(rx.try_recv(), Ok("b"));
    assert_eq!(rx.try_recv(), Err(RecvError::NoMessageAvailable));
    assert!(rx.is_empty());
}

#[test]
fn bounded_low_lane_hands_back_when_full() {
    let (mut tx, _rx) = channel::<u32>(QueueCapacity::Bounded(1));
    assert!(tx.try_send_low_priority(1).is_ok());
    match tx.try_send_low_priority(2) {
        Err(TrySendError::Full(m)) => assert_eq!(m, 2),
        other => panic!("unexpected {:?}", other),
    }
    assert!(tx.send_high_priority(3).is_ok());
}

#[test]
fn dropped_receiver_disconnects_senders() {
    let (mut tx, rx) = channel::<u32>(QueueCapacity::Unbounded);
    assert!(!tx.is_disconnected());
    drop(rx);
    assert!(tx.is_disconnected());
    assert!(matches!(tx.try_send_low_priority(1), Err(TrySendError::Disconnected)));
    assert_eq!(tx.send_high_priority(2), Err(SendError::Disconnected));
}

#[test]
fn dropped_senders_disconnect_after_draining() {
    let (mut tx, mut rx) = channel::<u32>(QueueCapacity::Unbounded);
    tx.try_send_low_priority(1).unwrap();
    tx.send_high_priority(2).unwrap();
    drop(tx);
    assert_eq!(rx.try_recv(), Ok(2));
    assert_eq!(rx.try_recv(), Ok(1));
    assert_eq!(rx.try_recv(), Err(RecvError::Disconnected));
    assert_eq!(rx.try_recv_high_priority_message(), Err(RecvError::Disconnected));
}

#[test]
fn low_message_waits_in_slot_behind_high() {
    let (mut tx, mut rx) = channel::<u32>(QueueCapacity::Unbounded);
    tx.try_send_low_priority(1).unwrap();
    tx.send_high_priority(2).unwrap();
    tx.send_high_priority(3).unwrap();
    assert_eq!(rx.take_ready(), Some(2));
    let low = rx.drain_low_priority();
    assert_eq!(low, vec![1]);
    assert_eq!(rx.settle_low_priority(1), 3);
    assert!(!rx.is_empty());
    assert_eq!(rx.take_ready(), Some(1));
    assert_eq!(rx.take_ready(), None);
}

#[test]
fn error_texts() {
    assert_eq!(SendError::Full.message(), "the channel is full");
    assert_eq!(RecvError::NoMessageAvailable.message(), "no message are currently available");
}

#[test]
fn decisions_prefer_the_high_lane() {
    let (_tx, mut rx) = channel::<u32>(QueueCapacity::Unbounded);
    assert_eq!(rx.settle_with(1, Ok(9)), 9);
    assert_eq!(rx.ready_with(Ok(8)), Some(8));
    assert_eq!(rx.ready_with(Err(RecvError::NoMessageAvailable)), Some(1));
    assert_eq!(rx.ready_with(Err(RecvError::NoMessageAvailable)), None);
    assert_eq!(rx.settle_with(2, Err(RecvError::NoMessageAvailable)), 2);
    assert_eq!(rx.after_low_with(Ok(3), Some(Ok(7))), Ok(7));
    assert_eq!(rx.take_ready(), Some(3));
    assert_eq!(rx.after_low_with(Ok(4), Some(Err(RecvError::NoMessageAvailable))), Ok(4));
    assert_eq!(rx.after_low_with(Err(RecvError::Disconnected), Some(Ok(5))), Ok(5));
    assert_eq!(rx.after_low_with(Err(RecvError::Disconnected), Some(Err(RecvError::NoMessageAvailable))), Err(RecvError::Disconnected));
    assert_eq!(rx.after_low_with(Err(RecvError::NoMessageAvailable), None), Err(RecvError::NoMessageAvailable));
    assert_eq!(Receiver::<u32>::closed_with(Ok(6)), Ok(6));
    assert_eq!(Receiver::<u32>::high_outcome(Err(RecvError::NoMessageAvailable), false, None), Err(RecvError::NoMessageAvailable));
    assert_eq!(Receiver::<u32>::high_outcome(Err(RecvError::NoMessageAvailable), true, Some(Ok(1))), Ok(1));
    assert_eq!(Receiver::<u32>::high_outcome(Err(RecvError::NoMessageAvailable), true, None), Err(RecvError::Disconnected));
}
