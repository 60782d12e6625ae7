use futures_util::task::noop_waker;
use gardena_bnw::mpsc::{channel, Error, Polled, Queue};

fn recv<T>(receiver: &mut gardena_bnw::mpsc::Receiver<T>) -> Option<Option<T>> {
    match receiver.poll_recv(noop_waker()) {
        Polled::Ready(v) => Some(v),
        Polled::Pending => None,
    }
}

#[test]
fn basics() {
    let (mut sender, mut receiver) = channel::<usize>();

    sender.send(42).unwrap();
    sender.send(43).unwrap();

    assert_eq!(recv(&mut receiver), Some(Some(42)));
    assert_eq!(recv(&mut receiver), Some(Some(43)));
    sender.release();
    assert_eq!(recv(&mut receiver), Some(None));
}

#[test]
fn basics_tasks() {
    let (mut sender, mut receiver) = channel::<usize>();
    let mut sender2 = sender.clone_counted();

    // nothing sent yet: the receiver waits
    assert_eq!(recv(&mut receiver), None);
    sender2.send(43).unwrap();
    sender2.release();
    sender.send(42).unwrap();

    assert_eq!(recv(&mut receiver), Some(Some(43)));
    assert_eq!(recv(&mut receiver), Some(Some(42)));
    sender.release();
    assert_eq!(recv(&mut receiver), Some(None));
}

#[test]
fn wait_for() {
    let (mut sender, mut receiver) = channel::<usize>();
    sender.send(43).unwrap();
    sender.send(42).unwrap();
    match receiver.poll_find(&|n: &usize| *n == 42, noop_waker()) {
        Polled::Ready(Some(found)) => {
            assert_eq!(*found.get(), 42);
            found.release();
        }
        _ => panic!("expected an item"),
    }
    assert_eq!(recv(&mut receiver), Some(Some(43)));
    assert_eq!(recv(&mut receiver), Some(Some(42)));
    sender.release();
    assert_eq!(recv(&mut receiver), Some(None));
}

#[test]
fn wait_for_remove() {
    let (mut sender, mut receiver) = channel::<usize>();
    assert!(matches!(
        receiver.poll_remove(&|n: &usize| *n == 42, noop_waker()),
        Polled::Pending
    ));
    sender.send(43).unwrap();
    sender.send(42).unwrap();
    assert!(matches!(
        receiver.poll_remove(&|n: &usize| *n == 42, noop_waker()),
        Polled::Ready(Some(42))
    ));
    assert_eq!(recv(&mut receiver), Some(Some(43)));
    sender.release();
    assert_eq!(recv(&mut receiver), Some(None));
}

#[test]
fn closed_receiver_refuses_items() {
    let (sender, mut receiver) = channel::<u8>();
    let uncounted = sender.clone_uncounted();
    assert!(!sender.is_closed());
    receiver.release();
    assert!(sender.is_closed());
    assert_eq!(sender.send(1), Err(Error::ReceiverClosed));
    assert_eq!(uncounted.send(2), Err(Error::ReceiverClosed));
}

#[test]
fn remove_matching_keeps_order() {
    let (sender, mut receiver) = channel::<u32>();
    for i in 0..10 {
        sender.send(i).unwrap();
    }
    assert_eq!(receiver.remove_matching(&|n: &u32| n % 3 == 0), 4);
    assert!(!receiver.is_empty());
    let mut rest = Vec::new();
    while let Some(Some(n)) = recv(&mut receiver) {
        rest.push(n);
    }
    assert_eq!(rest, vec![1, 2, 4, 5, 7, 8]);
    assert!(receiver.is_empty());
}

#[test]
fn queue_counts_senders() {
    let mut q: Queue<u8> = Queue::new();
    assert!(!q.is_rx_closed());
    q.add_sender();
    q.remove_sender();
    assert!(q.has_senders());
    q.remove_sender();
    assert!(!q.has_senders());
    assert!(matches!(q.poll_recv(noop_waker()), Polled::Ready(None)));
    q.remove_receiver();
    assert!(q.is_rx_closed());
}
