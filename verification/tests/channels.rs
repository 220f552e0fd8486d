use std::collections::VecDeque;

use crust::channels::channel;
use crust::channels::inner::Inner;
use crust::channels::Receiver;
use crust::channels::Sender;

fn drain<T>(rx: &mut Receiver<T>) -> Vec<T> {
    let mut seen = Vec::new();
    while let Some(value) = rx.receive() {
        seen.push(value);
    }
    seen
}

#[test]
fn ping_pong() {
    let (mut tx, mut rx) = channel();
    tx.send(42);
    assert_eq!(rx.receive(), Some(42));
}

#[test]
fn closed_tx() {
    let (tx, mut rx) = channel::<()>();
    drop(tx);
    assert_eq!(rx.receive(), None);
}

#[test]
fn closed_rx() {
    let (mut tx, rx) = channel();
    drop(rx);
    tx.send(42);
}

#[test]
fn clone_keeps_channel_open() {
    let (tx, mut rx) = channel();
    let mut other = tx.clone();
    drop(tx);
    other.send(7);
    assert_eq!(rx.receive(), Some(7));
    drop(other);
    assert_eq!(rx.receive(), None);
}

#[test]
fn closed_channel_stays_closed() {
    let (tx, mut rx) = channel::<u8>();
    drop(tx);
    for _ in 0..10 {
        assert_eq!(rx.receive(), None);
    }
}

#[test]
fn values_arrive_in_the_order_of_sending() {
    let (mut tx, mut rx) = channel();
    for value in 0..100 {
        tx.send(value);
    }
    for value in 0..100 {
        assert_eq!(rx.receive(), Some(value));
    }
}

#[test]
fn order_holds_when_sends_and_receives_alternate() {
    let (mut tx, mut rx) = channel();
    tx.send(1);
    tx.send(2);
    tx.send(3);
    assert_eq!(rx.receive(), Some(1));
    tx.send(4);
    tx.send(5);
    assert_eq!(rx.receive(), Some(2));
    assert_eq!(rx.receive(), Some(3));
    assert_eq!(rx.receive(), Some(4));
    tx.send(6);
    assert_eq!(rx.receive(), Some(5));
    assert_eq!(rx.receive(), Some(6));
    drop(tx);
    assert_eq!(rx.receive(), None);
}

#[test]
fn nothing_is_lost_across_clones() {
    let senders = 4;
    let each = 25;
    let (tx, mut rx) = channel();
    let mut handles: Vec<Sender<(usize, usize)>> = (0..senders).map(|_| tx.clone()).collect();
    drop(tx);
    for round in 0..each {
        for (who, handle) in handles.iter_mut().enumerate() {
            handle.send((who, round));
        }
    }
    drop(handles);
    let mut seen = drain(&mut rx);
    assert_eq!(seen.len(), senders * each);
    for who in 0..senders {
        let rounds: Vec<usize> = seen.iter().filter(|v| v.0 == who).map(|v| v.1).collect();
        assert_eq!(rounds, (0..each).collect::<Vec<usize>>());
    }
    seen.sort();
    seen.dedup();
    assert_eq!(seen.len(), senders * each);
}

#[test]
fn pending_values_outlive_their_senders() {
    let (mut tx, mut rx) = channel();
    tx.send(String::from("one"));
    tx.send(String::from("two"));
    drop(tx);
    assert_eq!(rx.receive(), Some(String::from("one")));
    assert_eq!(rx.receive(), Some(String::from("two")));
    assert_eq!(rx.receive(), None);
    assert_eq!(rx.receive(), None);
}

#[test]
fn destroying_one_of_many_senders_does_not_close() {
    let (mut tx, mut rx) = channel();
    let second = tx.clone();
    let third = second.clone();
    drop(second);
    drop(third);
    tx.send(1);
    assert_eq!(rx.receive(), Some(1));
    drop(tx);
    assert_eq!(rx.receive(), None);
}

#[test]
fn receiver_reads_as_a_sequence() {
    let (mut tx, mut rx) = channel();
    for value in [3, 1, 2] {
        tx.send(value);
    }
    drop(tx);
    let mut seen = Vec::new();
    while let Some(value) = rx.next() {
        seen.push(value);
    }
    assert_eq!(seen, vec![3, 1, 2]);
    assert_eq!(rx.next(), None);
}

#[test]
fn orphaned_sends_are_accepted() {
    let (mut tx, rx) = channel();
    let mut other = tx.clone();
    drop(rx);
    for value in 0..10 {
        tx.send(value);
        other.send(value);
    }
}

#[test]
fn new_state_has_one_sender_and_nothing_queued() {
    let inner: Inner<u8> = Inner::new();
    assert_eq!(inner.queued(), 0);
    assert_eq!(inner.senders(), 1);
    assert!(inner.is_idle());
}

#[test]
fn take_hands_out_the_oldest_and_buffers_the_rest() {
    let mut inner = Inner::new();
    let mut buffer = VecDeque::new();
    for value in [10, 20, 30, 40] {
        inner.push(value);
    }
    assert_eq!(inner.queued(), 4);
    assert!(!inner.is_idle());
    assert_eq!(inner.take(&mut buffer), Some(10));
    assert_eq!(inner.queued(), 0);
    assert_eq!(buffer, VecDeque::from(vec![20, 30, 40]));
}

#[test]
fn take_of_a_single_value_leaves_the_buffer_empty() {
    let mut inner = Inner::new();
    let mut buffer = VecDeque::new();
    inner.push('x');
    assert_eq!(inner.take(&mut buffer), Some('x'));
    assert_eq!(inner.queued(), 0);
    assert!(buffer.is_empty());
}

#[test]
fn take_from_an_empty_queue_gives_nothing() {
    let mut inner: Inner<u8> = Inner::new();
    let mut buffer = VecDeque::new();
    assert_eq!(inner.take(&mut buffer), None);
    assert_eq!(inner.queued(), 0);
    assert_eq!(inner.senders(), 1);
    assert!(buffer.is_empty());
}

#[test]
fn sender_count_follows_clones_and_drops() {
    let mut inner: Inner<u8> = Inner::new();
    inner.add_sender();
    assert_eq!(inner.senders(), 2);
    assert!(!inner.remove_sender());
    assert_eq!(inner.senders(), 1);
    assert!(inner.is_idle());
    assert!(inner.remove_sender());
    assert_eq!(inner.senders(), 0);
    assert!(!inner.is_idle());
}

#[test]
fn sender_count_never_drops_below_zero() {
    let mut inner: Inner<u8> = Inner::new();
    assert!(inner.remove_sender());
    assert!(inner.remove_sender());
    assert_eq!(inner.senders(), 0);
}

#[test]
fn state_with_pending_values_is_not_idle_even_without_senders() {
    let mut inner = Inner::new();
    inner.push(1);
    assert!(inner.remove_sender());
    assert!(!inner.is_idle());
    let mut buffer = VecDeque::new();
    assert_eq!(inner.take(&mut buffer), Some(1));
    assert!(!inner.is_idle());
    assert_eq!(inner.take(&mut buffer), None);
}

#[test]
fn try_send_enqueues_like_send() {
    let (mut tx, mut rx) = channel();
    assert!(tx.try_send(5).is_ok());
    tx.send(6);
    assert!(tx.try_send(7).is_ok());
    assert_eq!(rx.receive(), Some(5));
    assert_eq!(rx.receive(), Some(6));
    assert_eq!(rx.receive(), Some(7));
}

#[test]
fn try_send_accepts_orphaned_values() {
    let (mut tx, rx) = channel();
    drop(rx);
    assert!(tx.try_send(String::from("nobody listens")).is_ok());
}

#[test]
fn try_receive_hands_out_values_then_reports_closed() {
    let (mut tx, mut rx) = channel();
    tx.send(1);
    tx.send(2);
    drop(tx);
    assert_eq!(rx.try_receive(), Ok(Some(1)));
    assert_eq!(rx.try_receive(), Ok(Some(2)));
    assert_eq!(rx.try_receive(), Ok(None));
    assert_eq!(rx.try_receive(), Ok(None));
}

#[test]
fn clone_feeds_the_same_receiver() {
    let (mut tx, mut rx) = channel();
    let mut first = tx.clone();
    let mut second = first.clone();
    second.send('c');
    tx.send('a');
    first.send('b');
    assert_eq!(drain_three(&mut rx), vec!['c', 'a', 'b']);
}

fn drain_three(rx: &mut Receiver<char>) -> Vec<char> {
    let mut seen = Vec::new();
    for _ in 0..3 {
        seen.push(rx.receive().unwrap());
    }
    seen
}

#[test]
fn channels_do_not_share_their_queues() {
    let (mut tx, mut rx) = channel();
    let (mut other_tx, mut other_rx) = channel();
    tx.send(1);
    other_tx.send(2);
    drop(tx);
    drop(other_tx);
    assert_eq!(rx.receive(), Some(1));
    assert_eq!(rx.receive(), None);
    assert_eq!(other_rx.receive(), Some(2));
    assert_eq!(other_rx.receive(), None);
}
