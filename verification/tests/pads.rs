//! Demand, pads, channels and delivery to several pads.
use livestream::channel::{
    after_wait, broadcast, broadcast_result, mpsc, send_result, BroadcastAction, BroadcastWait,
    MpscSender, SendError, TrySend,
};
use livestream::pad::{any_wanted, demand_for, DemandHandle, DemandSignal, PadSender};
use livestream::task::{before_pull, deliver_to_pad, fan_out, keeps_delivering, LoopAction};
use std::sync::{Arc, Mutex};

/// Runs a future to its end.
fn wait<F: std::future::Future>(future: F) -> F::Output {
    tokio::runtime::Builder::new_current_thread().build().unwrap().block_on(future)
}

#[test]
fn demand_new_is_not_wanted() {
    let sig = DemandSignal::new();
    assert!(!sig.is_wanted());
}

#[test]
fn demand_with_handle_is_wanted() {
    let sig = DemandSignal::new();
    let h = sig.new_handle();
    assert!(sig.is_wanted());
    drop(h);
    assert!(!sig.is_wanted());
}

#[test]
fn demand_always_wanted() {
    let sig = DemandSignal::new_always_wanted();
    assert!(sig.is_wanted());
    let h = sig.new_handle();
    drop(h);
    assert!(sig.is_wanted());
}

#[test]
fn demand_multiple_handles() {
    let sig = DemandSignal::new();
    let h1 = sig.new_handle();
    let h2 = sig.new_handle();
    assert!(sig.is_wanted());
    drop(h1);
    assert!(sig.is_wanted());
    drop(h2);
    assert!(!sig.is_wanted());
}

#[test]
fn demand_signal_clone_shares_state() {
    let sig1 = DemandSignal::new();
    let sig2 = sig1.clone();
    let h = sig1.new_handle();
    assert!(sig2.is_wanted());
    drop(h);
    assert!(!sig1.is_wanted());
}

#[test]
fn demand_empty_handle_no_underflow() {
    let h = DemandHandle::empty();
    let h2 = h.clone();
    drop(h2);
    drop(h); // would underflow without the detached guard
}

#[test]
fn demand_cloned_handle_counts() {
    let sig = DemandSignal::default();
    let h = sig.new_handle();
    let copy = h.clone();
    drop(h);
    assert!(sig.is_wanted());
    drop(copy);
    assert!(!sig.is_wanted());
}

#[test]
fn demand_is_given_back() {
    let sig = DemandSignal::new();
    for _ in 0..3 {
        let h = sig.new_handle();
        let copies = vec![h.clone(), h.clone()];
        drop(h);
        assert!(sig.is_wanted());
        drop(copies);
        assert!(!sig.is_wanted());
    }
}

#[test]
fn demand_by_count() {
    assert!(!demand_for(false, 0));
    assert!(demand_for(false, 1));
    assert!(demand_for(true, 0));
    assert!(!any_wanted(&[]));
    assert!(!any_wanted(&[false, false]));
    assert!(any_wanted(&[false, true]));
}

#[test]
fn pad_channel_send_recv() {
    let (tx, rx) = PadSender::<i32, fn(i32)>::new_channel(4);
    let rx = rx.into_channel().unwrap();
    tx.send(42).unwrap();
    assert_eq!(wait(rx.rx.recv()).ok(), Some(42));
    drop(tx);
    assert_eq!(wait(rx.rx.recv()).ok(), None);
}

#[test]
fn pad_direct_calls_handler() {
    let called = Arc::new(Mutex::new(false));
    let called_clone = called.clone();
    let (_tx, _rx) = PadSender::new_direct(move |item: String| {
        assert_eq!(item, "hello");
        *called_clone.lock().unwrap() = true;
    });
    _tx.send("hello".into()).unwrap();
    assert!(*called.lock().unwrap());
}

#[test]
fn direct_pad_has_no_channel() {
    let (tx, rx) = PadSender::new_direct(|_: u8| {});
    assert!(tx.send(1).is_ok());
    assert!(rx.into_channel().is_none());
}

#[test]
fn pad_shares_its_demand() {
    let (tx, _rx) = PadSender::<i32, fn(i32)>::new_channel(1);
    let other = tx.clone();
    assert!(!tx.demand().is_wanted());
    let handle = other.demand().new_handle();
    assert!(tx.demand().is_wanted());
    drop(handle);
    assert!(!other.demand().is_wanted());
}

#[test]
fn channel_reports_full_and_closed() {
    let (tx, rx) = mpsc::<u32>("queue", Some("live"), 1);
    assert_eq!(tx.send(1), Ok(()));
    assert_eq!(tx.send(2), Err(SendError::Full));
    assert_eq!(wait(rx.rx.recv()).ok(), Some(1));
    drop(rx);
    assert_eq!(tx.send(3), Err(SendError::Closed));
}

#[test]
fn channel_clone_feeds_the_same_receiver() {
    let (tx, rx) = mpsc::<u32>("queue", None, 4);
    let other = tx.clone();
    tx.send(1).unwrap();
    other.send(2).unwrap();
    assert_eq!(wait(rx.rx.recv()).ok(), Some(1));
    assert_eq!(wait(rx.rx.recv()).ok(), Some(2));
}

#[test]
fn channel_names() {
    let (tx, _rx): (MpscSender<u8>, _) = mpsc("flv_relay", None, 1);
    assert_eq!(tx.queue(), "flv_relay");
    assert_eq!(tx.live_id(), None);
    let tx = tx.with_live_id("cam-1");
    assert_eq!(tx.live_id(), Some("cam-1"));
    assert_eq!(tx.clone().queue(), "flv_relay");
}

#[test]
fn send_answers() {
    assert_eq!(send_result(TrySend::Sent), Ok(()));
    assert_eq!(send_result(TrySend::Full), Err(SendError::Full));
    assert_eq!(send_result(TrySend::Disconnected), Err(SendError::Closed));
    assert_eq!(broadcast_result(Some(3)), Ok(3));
    assert_eq!(broadcast_result(None), Err(SendError::Closed));
}

#[test]
fn broadcast_reaches_every_subscriber() {
    let (tx, mut first) = broadcast::<u32>("queue", None, 4);
    let mut second = tx.subscribe();
    assert_eq!(tx.send(7), Ok(2));
    assert_eq!(first.try_recv(), Some(7));
    assert_eq!(first.try_recv(), None);
    assert_eq!(second.try_recv(), Some(7));
    // A copy of a subscription sees what is sent from then on.
    let mut late = second.clone();
    assert_eq!(tx.clone().send(8), Ok(3));
    assert_eq!(late.try_recv(), Some(8));
    drop(first);
    drop(second);
    drop(late);
    assert_eq!(tx.send(9), Err(SendError::Closed));
}

#[test]
fn broadcast_capacity_is_at_least_one() {
    let (tx, mut rx) = broadcast::<u32>("queue", None, 0);
    assert_eq!(tx.send(1), Ok(1));
    assert_eq!(rx.try_recv(), Some(1));
}

#[test]
fn subscriber_skips_missed_items() {
    assert_eq!(after_wait(BroadcastWait::Item), BroadcastAction::Deliver);
    assert_eq!(after_wait(BroadcastWait::Lagged(4)), BroadcastAction::WaitAgain);
    assert_eq!(after_wait(BroadcastWait::Closed), BroadcastAction::End);
}

#[test]
fn full_pad_costs_no_other_pad_its_copy() {
    let (full, _full_rx) = PadSender::<u32, fn(u32)>::new_channel(1);
    let (open, open_rx) = PadSender::<u32, fn(u32)>::new_channel(4);
    full.send(0).unwrap();
    let answers = fan_out(&[full, open], &[5, 6]);
    assert_eq!(answers, vec![
        vec![Err(SendError::Full), Ok(())],
        vec![Err(SendError::Full), Ok(())],
    ]);
    let open_rx = open_rx.into_channel().unwrap();
    assert_eq!(wait(open_rx.rx.recv()).ok(), Some(5));
    assert_eq!(wait(open_rx.rx.recv()).ok(), Some(6));
}

#[test]
fn closed_pad_ends_the_delivery_of_an_item() {
    let (closed, closed_rx) = PadSender::<u32, fn(u32)>::new_channel(1);
    let (open, open_rx) = PadSender::<u32, fn(u32)>::new_channel(4);
    drop(closed_rx);
    assert_eq!(deliver_to_pad(&closed, &1), Err(SendError::Closed));
    let answers = fan_out(&[open, closed], &[5]);
    assert_eq!(answers, vec![vec![Ok(()), Err(SendError::Closed)]]);
    let open_rx = open_rx.into_channel().unwrap();
    assert_eq!(wait(open_rx.rx.recv()).ok(), Some(5));
}

#[test]
fn loops_pull_only_what_is_wanted() {
    assert_eq!(before_pull(true), LoopAction::Pull);
    assert_eq!(before_pull(false), LoopAction::Sleep(50));
    assert!(keeps_delivering(Ok(())));
    assert!(keeps_delivering(Err(SendError::Full)));
    assert!(!keeps_delivering(Err(SendError::Closed)));
}
