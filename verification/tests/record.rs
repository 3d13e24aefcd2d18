#![allow(deprecated)]

use lapin_async::message::Delivery;
use lapin_async::types::ShortString;
use lapin_async::BasicProperties;
use lapin_futures::inner::ConsumerInner;
use std::sync::atomic::AtomicUsize;
use std::sync::atomic::Ordering;
use std::sync::Arc;
use std::task::Poll;
use std::task::Wake;
use std::task::Waker;

struct Signals(AtomicUsize);

impl Wake for Signals {
    fn wake(self: Arc<Self>) {
        self.0.fetch_add(1, Ordering::SeqCst);
    }
}

fn counting_waker() -> (Arc<Signals>, Waker) {
    let signals = Arc::new(Signals(AtomicUsize::new(0)));
    let waker = Waker::from(signals.clone());
    (signals, waker)
}

fn count(signals: &Arc<Signals>) -> usize {
    signals.0.load(Ordering::SeqCst)
}

fn delivery(tag: u64) -> Delivery {
    Delivery {
        delivery_tag: tag,
        exchange: ShortString::from("orders"),
        routing_key: ShortString::from("new"),
        redelivered: tag % 2 == 1,
        properties: BasicProperties::default(),
        data: vec![tag as u8, 0xAB],
    }
}

#[test]
fn fresh_record_is_not_ready() {
    let (signals, waker) = counting_waker();
    let mut inner = ConsumerInner::default();
    assert_eq!(inner.poll_next(&waker), Poll::Pending);
    assert_eq!(inner.poll_next(&waker), Poll::Pending);
    assert_eq!(count(&signals), 0);
}

#[test]
fn push_without_a_waiting_poll_signals_nobody() {
    let mut inner = ConsumerInner::default();
    assert!(!inner.new_delivery(delivery(1)));
    assert!(!inner.new_delivery(delivery(2)));
}

#[test]
fn deliveries_come_out_in_the_order_of_the_pushes() {
    let (_signals, waker) = counting_waker();
    let mut inner = ConsumerInner::default();
    for tag in 0..50u64 {
        inner.new_delivery(delivery(tag));
    }
    for tag in 0..50u64 {
        assert_eq!(inner.poll_next(&waker), Poll::Ready(Some(delivery(tag))));
    }
    assert_eq!(inner.poll_next(&waker), Poll::Pending);
}

#[test]
fn pushes_between_polls_keep_their_order() {
    let (_signals, waker) = counting_waker();
    let mut inner = ConsumerInner::default();
    inner.new_delivery(delivery(1));
    inner.new_delivery(delivery(2));
    assert_eq!(inner.poll_next(&waker), Poll::Ready(Some(delivery(1))));
    inner.new_delivery(delivery(3));
    assert_eq!(inner.poll_next(&waker), Poll::Ready(Some(delivery(2))));
    assert_eq!(inner.poll_next(&waker), Poll::Ready(Some(delivery(3))));
    assert_eq!(inner.poll_next(&waker), Poll::Pending);
}

#[test]
fn the_same_delivery_pushed_twice_comes_out_twice() {
    let (_signals, waker) = counting_waker();
    let mut inner = ConsumerInner::default();
    inner.new_delivery(delivery(9));
    inner.new_delivery(delivery(9));
    assert_eq!(inner.poll_next(&waker), Poll::Ready(Some(delivery(9))));
    assert_eq!(inner.poll_next(&waker), Poll::Ready(Some(delivery(9))));
    assert_eq!(inner.poll_next(&waker), Poll::Pending);
}

#[test]
fn every_push_signals_the_recorded_waker_and_keeps_it() {
    let (signals, waker) = counting_waker();
    let mut inner = ConsumerInner::default();
    assert_eq!(inner.poll_next(&waker), Poll::Pending);
    assert!(inner.new_delivery(delivery(1)));
    assert_eq!(count(&signals), 1);
    assert!(inner.new_delivery(delivery(2)));
    assert_eq!(count(&signals), 2);
    assert_eq!(inner.poll_next(&waker), Poll::Ready(Some(delivery(1))));
    assert!(inner.new_delivery(delivery(3)));
    assert_eq!(count(&signals), 3);
}

#[test]
fn a_poll_that_returns_a_delivery_records_its_waker_too() {
    let (signals, waker) = counting_waker();
    let mut inner = ConsumerInner::default();
    assert!(!inner.new_delivery(delivery(1)));
    assert_eq!(inner.poll_next(&waker), Poll::Ready(Some(delivery(1))));
    assert!(inner.new_delivery(delivery(2)));
    assert_eq!(count(&signals), 1);
}

#[test]
fn a_recorded_waker_is_not_replaced_by_a_later_poll() {
    let (first_signals, first) = counting_waker();
    let (second_signals, second) = counting_waker();
    let mut inner = ConsumerInner::default();
    assert_eq!(inner.poll_next(&first), Poll::Pending);
    assert_eq!(inner.poll_next(&second), Poll::Pending);
    assert!(inner.new_delivery(delivery(1)));
    assert_eq!(count(&first_signals), 1);
    assert_eq!(count(&second_signals), 0);
}

#[test]
fn discarding_removes_what_is_queued_and_nothing_else() {
    let (signals, waker) = counting_waker();
    let mut inner = ConsumerInner::default();
    inner.new_delivery(delivery(1));
    inner.new_delivery(delivery(2));
    assert_eq!(inner.poll_next(&waker), Poll::Ready(Some(delivery(1))));
    inner.new_delivery(delivery(3));
    inner.drop_prefetched_messages();
    assert_eq!(inner.poll_next(&waker), Poll::Pending);
    assert_eq!(count(&signals), 1);

    assert!(inner.new_delivery(delivery(4)));
    assert_eq!(count(&signals), 2);
    inner.new_delivery(delivery(5));
    assert_eq!(inner.poll_next(&waker), Poll::Ready(Some(delivery(4))));
    assert_eq!(inner.poll_next(&waker), Poll::Ready(Some(delivery(5))));
    assert_eq!(inner.poll_next(&waker), Poll::Pending);
}

#[test]
fn discarding_an_empty_queue_changes_nothing() {
    let (_signals, waker) = counting_waker();
    let mut inner = ConsumerInner::default();
    inner.drop_prefetched_messages();
    inner.drop_prefetched_messages();
    assert_eq!(inner.poll_next(&waker), Poll::Pending);
    inner.new_delivery(delivery(1));
    assert_eq!(inner.poll_next(&waker), Poll::Ready(Some(delivery(1))));
}

#[test]
fn discarding_does_not_cancel() {
    let (_signals, waker) = counting_waker();
    let mut inner = ConsumerInner::default();
    inner.new_delivery(delivery(1));
    inner.drop_prefetched_messages();
    assert_eq!(inner.poll_next(&waker), Poll::Pending);
}

#[test]
fn cancel_discards_what_is_queued_and_ends_the_sequence() {
    let (_signals, waker) = counting_waker();
    let mut inner = ConsumerInner::default();
    inner.new_delivery(delivery(1));
    inner.new_delivery(delivery(2));
    inner.cancel();
    for _ in 0..10 {
        assert_eq!(inner.poll_next(&waker), Poll::Ready(None));
    }
}

#[test]
fn cancel_drops_the_recorded_waker_without_signalling_it() {
    let (signals, waker) = counting_waker();
    let mut inner = ConsumerInner::default();
    assert_eq!(inner.poll_next(&waker), Poll::Pending);
    let held = Arc::strong_count(&signals);
    inner.cancel();
    assert_eq!(count(&signals), 0);
    assert_eq!(Arc::strong_count(&signals), held - 1);
    assert!(!inner.new_delivery(delivery(1)));
    assert_eq!(count(&signals), 0);
}

#[test]
fn cancel_twice_is_cancel_once() {
    let (signals, waker) = counting_waker();
    let mut once = ConsumerInner::default();
    let mut twice = ConsumerInner::default();
    for inner in [&mut once, &mut twice] {
        inner.new_delivery(delivery(1));
        assert_eq!(inner.poll_next(&waker), Poll::Ready(Some(delivery(1))));
        inner.new_delivery(delivery(2));
    }
    let before = count(&signals);
    once.cancel();
    twice.cancel();
    twice.cancel();
    assert_eq!(count(&signals), before);
    assert_eq!(once.new_delivery(delivery(3)), twice.new_delivery(delivery(3)));
    for _ in 0..3 {
        assert_eq!(once.poll_next(&waker), twice.poll_next(&waker));
    }
    assert_eq!(once.poll_next(&waker), Poll::Ready(None));
    assert_eq!(twice.poll_next(&waker), Poll::Ready(None));
}

#[test]
fn discarding_after_cancel_leaves_the_sequence_ended() {
    let (_signals, waker) = counting_waker();
    let mut inner = ConsumerInner::default();
    inner.cancel();
    inner.drop_prefetched_messages();
    assert_eq!(inner.poll_next(&waker), Poll::Ready(None));
}

#[test]
fn a_delivery_pushed_after_cancel_is_queued_and_handed_out() {
    let (signals, waker) = counting_waker();
    let mut inner = ConsumerInner::default();
    inner.cancel();
    assert_eq!(inner.poll_next(&waker), Poll::Ready(None));
    assert!(inner.new_delivery(delivery(1)));
    assert_eq!(count(&signals), 1);
    assert_eq!(inner.poll_next(&waker), Poll::Ready(Some(delivery(1))));
    assert_eq!(inner.poll_next(&waker), Poll::Ready(None));
}
