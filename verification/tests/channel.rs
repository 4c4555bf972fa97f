use just_watch::channel;
use just_watch::RecvError;

#[test]
fn initial_value_is_borrowable() {
    let (chan, _tx, rx) = channel("hello");
    assert_eq!(*rx.borrow(&chan).get(), "hello");
}

#[test]
fn send_then_change_then_close() {
    let (mut chan, tx, mut rx) = channel(0);
    tx.send(&mut chan, 1).unwrap();
    assert_eq!(rx.maybe_changed(&chan), Some(Ok(())));
    assert_eq!(*rx.borrow(&chan).get(), 1);
    tx.close(&mut chan);
    assert_eq!(rx.maybe_changed(&chan), Some(Err(RecvError)));
    assert_eq!(rx.maybe_changed(&chan), Some(Err(RecvError)));
}

#[test]
fn broadcast_to_duplicates() {
    let (mut chan, tx, mut rx1) = channel(String::from("a"));
    let mut rx2 = rx1.duplicate(&mut chan);
    tx.send(&mut chan, String::from("b")).unwrap();
    assert_eq!(rx1.recv(&chan), Ok(String::from("b")));
    assert_eq!(rx2.recv(&chan), Ok(String::from("b")));
}

#[test]
fn dropping_sole_receiver_resolves_closed() {
    let (mut chan, tx, rx) = channel(0);
    assert!(!tx.closed(&chan));
    assert!(rx.unsubscribe(&mut chan));
    assert!(tx.closed(&chan));
}

#[test]
fn dropping_receivers_in_any_order_resolves_closed() {
    let (mut chan, tx, rx1) = channel(0);
    let rx2 = rx1.duplicate(&mut chan);
    let rx3 = tx.subscribe(&mut chan);
    assert!(!rx2.unsubscribe(&mut chan));
    assert!(!tx.closed(&chan));
    assert!(!rx1.unsubscribe(&mut chan));
    assert!(!tx.closed(&chan));
    assert!(rx3.unsubscribe(&mut chan));
    assert!(tx.closed(&chan));
}

#[test]
fn send_without_receivers_returns_the_value() {
    let (mut chan, tx, rx) = channel(7);
    rx.unsubscribe(&mut chan);
    let err = tx.send(&mut chan, 42).unwrap_err();
    assert_eq!(err.inner, 42);
    let rx2 = tx.subscribe(&mut chan);
    assert_eq!(*rx2.borrow(&chan).get(), 7);
}

#[test]
fn publishes_collapse_into_one_change() {
    let (mut chan, tx, mut rx) = channel(0);
    tx.send(&mut chan, 1).unwrap();
    tx.send(&mut chan, 2).unwrap();
    tx.send(&mut chan, 3).unwrap();
    assert_eq!(rx.maybe_changed(&chan), Some(Ok(())));
    assert_eq!(*rx.borrow(&chan).get(), 3);
    assert_eq!(rx.maybe_changed(&chan), None);
}

#[test]
fn close_after_consumed_update_is_terminal() {
    let (mut chan, tx, mut rx) = channel(0);
    tx.send(&mut chan, 1).unwrap();
    assert_eq!(rx.maybe_changed(&chan), Some(Ok(())));
    tx.close(&mut chan);
    assert_eq!(rx.maybe_changed(&chan), Some(Err(RecvError)));
    assert_eq!(rx.maybe_changed(&chan), Some(Err(RecvError)));
    assert_eq!(rx.maybe_changed(&chan), Some(Err(RecvError)));
}

#[test]
fn close_with_pending_update_succeeds_once_more() {
    let (mut chan, tx, mut rx) = channel(0);
    tx.send(&mut chan, 1).unwrap();
    tx.close(&mut chan);
    assert_eq!(rx.maybe_changed(&chan), Some(Ok(())));
    assert_eq!(*rx.borrow(&chan).get(), 1);
    assert_eq!(rx.maybe_changed(&chan), Some(Err(RecvError)));
    assert_eq!(rx.maybe_changed(&chan), Some(Err(RecvError)));
}

#[test]
fn changed_resolves_after_send_and_after_close() {
    let (mut chan, tx, mut rx) = channel(0);
    tx.send(&mut chan, 1).unwrap();
    assert_eq!(rx.changed(&chan), Ok(()));
    tx.close(&mut chan);
    assert_eq!(rx.changed(&chan), Err(RecvError));
}

#[test]
fn recv_fails_once_closed_and_consumed() {
    let (mut chan, tx, mut rx) = channel(5);
    tx.close(&mut chan);
    assert_eq!(rx.recv(&chan), Err(RecvError));
}

#[test]
fn subscriber_starts_at_the_current_version() {
    let (mut chan, tx, _rx) = channel(0);
    tx.send(&mut chan, 1).unwrap();
    let mut late = tx.subscribe(&mut chan);
    assert_eq!(late.maybe_changed(&chan), None);
    tx.send(&mut chan, 2).unwrap();
    assert_eq!(late.maybe_changed(&chan), Some(Ok(())));
    assert_eq!(*late.borrow(&chan).get(), 2);
}

#[test]
fn duplicate_copies_the_last_seen_version() {
    let (mut chan, tx, mut rx) = channel(0);
    tx.send(&mut chan, 1).unwrap();
    assert_eq!(rx.maybe_changed(&chan), Some(Ok(())));
    let mut twin = rx.duplicate(&mut chan);
    assert_eq!(twin.maybe_changed(&chan), None);
}

#[test]
fn send_modify_replaces_in_place() {
    let (mut chan, tx, mut rx) = channel(10);
    tx.send_modify(&mut chan, |v: &i32| *v + 1);
    assert_eq!(rx.maybe_changed(&chan), Some(Ok(())));
    assert_eq!(*rx.borrow(&chan).get(), 11);
}

#[test]
fn send_modify_ignores_receiver_count() {
    let (mut chan, tx, rx) = channel(10);
    rx.unsubscribe(&mut chan);
    tx.send_modify(&mut chan, |v: &i32| *v * 2);
    let rx2 = tx.subscribe(&mut chan);
    assert_eq!(*rx2.borrow(&chan).get(), 20);
}

#[test]
fn borrow_sees_exactly_the_last_whole_value() {
    let (mut chan, tx, rx) = channel((0u32, 0u32));
    tx.send(&mut chan, (1, 10)).unwrap();
    tx.send(&mut chan, (2, 20)).unwrap();
    let seen = *rx.borrow(&chan).get();
    assert_eq!(seen, (2, 20));
}
