//! A multi-producer single-consumer queue in the manner of
//! `tokio::sync::mpsc`, with more features: queued items can be looked at
//! without removing them, removed from anywhere in the queue, and waited for
//! with a filter.
//!
//! The queue state and every operation on it are verified on [`Queue`]; the
//! handles [`Sender`] and [`Receiver`] share one queue behind a lock. The
//! asynchronous waiting (polling with a waker) is done by the caller, which
//! hands the waker of its task to the `poll_*` operations.

use vstd::prelude::*;
use std::collections::VecDeque;
use std::sync::Arc;
use vstd::rwlock::{RwLock, RwLockPredicate, WriteHandle};
use std::task::Waker;

verus! {

/// The waker of an asynchronous task.
#[verifier::external_type_specification]
#[verifier::external_body]
pub struct ExWaker(std::task::Waker);

/// Calls `Waker::wake`, which schedules the task that the waker belongs to.
/// Nothing is claimed of it.
#[verifier::external_body]
fn wake(waker: Waker) {
    waker.wake()
}

/// Why an item could not be sent.
#[derive(Debug, Clone, Copy, PartialEq, Eq, Structural)]
pub enum Error {
    /// "receiver closed"
    ReceiverClosed,
}

/// The result of polling for an item: ready with an item (or `None` once
/// all senders are gone), or pending until the waker is woken.
#[derive(Debug)]
pub enum Polled<T> {
    Ready(Option<T>),
    Pending,
}

/// The state shared by the handles of one queue.
pub struct Queue<T> {
    /// the queued user data, oldest first
    data: VecDeque<T>,
    /// waker to notify after the data became non-empty
    rx_waker: Option<Waker>,
    /// number of receiver handles
    rx_count: usize,
    /// number of counted sender handles
    tx_count: usize,
}

impl<T> Queue<T> {
    /// The queued items, oldest first.
    pub closed spec fn items(self) -> Seq<T> {
        self.data@
    }

    /// Whether a receiver waits to be woken.
    pub closed spec fn has_waker(self) -> bool {
        self.rx_waker is Some
    }

    /// The number of receiver handles.
    pub closed spec fn receivers(self) -> nat {
        self.rx_count as nat
    }

    /// The number of counted sender handles.
    pub closed spec fn senders(self) -> nat {
        self.tx_count as nat
    }

    /// The queue of a new channel: one receiver, one sender, no items.
    pub fn new() -> (q: Self)
        ensures
            q.items() == Seq::<T>::empty(),
            !q.has_waker(),
            q.receivers() == 1,
            q.senders() == 1,
    {
        Queue { data: VecDeque::new(), rx_waker: None, rx_count: 1, tx_count: 1 }
    }

    /// Wake up the waiting receiver, if there is one.
    pub fn wake_rx(&mut self)
        ensures
            final(self).items() == old(self).items(),
            !final(self).has_waker(),
            final(self).receivers() == old(self).receivers(),
            final(self).senders() == old(self).senders(),
    {
        if let Some(waker) = self.rx_waker.take() {
            wake(waker);
        }
    }

    /// Whether the receiver was dropped.
    pub fn is_rx_closed(&self) -> (r: bool)
        ensures
            r == (self.receivers() == 0),
    {
        self.rx_count == 0
    }

    /// Whether another counted sender can be added.
    pub fn below_sender_limit(&self) -> (r: bool)
        ensures
            r == (self.senders() + 1 < usize::MAX),
    {
        self.tx_count < usize::MAX - 1
    }

    /// Whether there is a counted sender.
    pub fn has_senders(&self) -> (r: bool)
        ensures
            r == (self.senders() > 0),
    {
        self.tx_count > 0
    }

    /// Whether the receiver is there.
    pub fn is_rx_open(&self) -> (r: bool)
        ensures
            r == (self.receivers() > 0),
    {
        self.rx_count > 0
    }

    /// Whether no item is queued.
    pub fn is_empty(&self) -> (r: bool)
        ensures
            r == (self.items().len() == 0),
    {
        self.data.len() == 0
    }

    /// Queue `item` and wake the receiver, unless the receiver was dropped.
    pub fn send(&mut self, item: T) -> (r: Result<(), Error>)
        ensures
            old(self).receivers() == 0 ==> r == Err::<(), Error>(Error::ReceiverClosed),
            old(self).receivers() == 0 ==> *final(self) == *old(self),
            old(self).receivers() != 0 ==> {
                &&& r is Ok
                &&& final(self).items() == old(self).items().push(item)
                &&& !final(self).has_waker()
                &&& final(self).receivers() == old(self).receivers()
                &&& final(self).senders() == old(self).senders()
            },
    {
        if self.is_rx_closed() {
            return Err(Error::ReceiverClosed);
        }
        self.data.push_back(item);
        self.wake_rx();
        Ok(())
    }

    /// Take the oldest item: ready with `None` once all senders are gone,
    /// ready with the item if there is one, else pending after keeping the
    /// waker.
    pub fn poll_recv(&mut self, waker: Waker) -> (r: Polled<T>)
        ensures
            final(self).receivers() == old(self).receivers(),
            final(self).senders() == old(self).senders(),
            old(self).senders() == 0 ==> r matches Polled::Ready(None),
            old(self).senders() == 0 ==> *final(self) == *old(self),
            old(self).senders() != 0 && old(self).items().len() > 0 ==> {
                &&& r matches Polled::Ready(Some(x)) && x == old(self).items()[0]
                &&& final(self).items() == old(self).items().drop_first()
                &&& final(self).has_waker() == old(self).has_waker()
            },
            old(self).senders() != 0 && old(self).items().len() == 0 ==> {
                &&& r is Pending
                &&& final(self).items() == old(self).items()
                &&& final(self).has_waker()
            },
    {
        if self.tx_count == 0 {
            return Polled::Ready(None);
        }
        match self.data.pop_front() {
            Some(item) => Polled::Ready(Some(item)),
            None => {
                self.rx_waker = Some(waker);
                Polled::Pending
            },
        }
    }

    /// The position of the first queued item that `predicate` accepts.
    pub fn position<P: Fn(&T) -> bool>(&self, predicate: &P) -> (r: Option<usize>)
        requires
            forall|x: &T| #[trigger] predicate.requires((x,)),
        ensures
            match r {
                Some(i) => {
                    &&& i < self.items().len()
                    &&& predicate.ensures((&self.items()[i as int],), true)
                    &&& forall|j: int|
                        0 <= j < i ==> #[trigger] predicate.ensures((&self.items()[j],), false)
                },
                None => forall|j: int|
                    0 <= j < self.items().len() ==> #[trigger] predicate.ensures(
                        (&self.items()[j],),
                        false,
                    ),
            },
    {
        let n = self.data.len();
        let mut i: usize = 0;
        while i < n
            invariant
                n == self.items().len(),
                i <= n,
                forall|x: &T| #[trigger] predicate.requires((x,)),
                forall|j: int|
                    0 <= j < i ==> #[trigger] predicate.ensures((&self.items()[j],), false),
            decreases n - i,
        {
            let accepted = predicate(&self.data[i]);
            if accepted {
                return Some(i);
            }
            i += 1;
        }
        None
    }

    /// The queued item at `index`.
    pub fn item(&self, index: usize) -> (r: &T)
        requires
            index < self.items().len(),
        ensures
            *r == self.items()[index as int],
    {
        &self.data[index]
    }

    /// Wait for an item that `predicate` accepts: ready with its position
    /// once there is one, pending (keeping the waker) while there is none,
    /// and ready with `None` once all senders are gone.
    pub fn poll_find<P: Fn(&T) -> bool>(&mut self, predicate: &P, waker: Waker) -> (r: Polled<usize>)
        requires
            forall|x: &T| #[trigger] predicate.requires((x,)),
        ensures
            final(self).items() == old(self).items(),
            final(self).receivers() == old(self).receivers(),
            final(self).senders() == old(self).senders(),
            old(self).senders() == 0 ==> r matches Polled::Ready(None),
            old(self).senders() != 0 ==> match r {
                Polled::Ready(Some(i)) => {
                    &&& i < old(self).items().len()
                    &&& predicate.ensures((&old(self).items()[i as int],), true)
                    &&& forall|j: int|
                        0 <= j < i ==> #[trigger] predicate.ensures(
                            (&old(self).items()[j],),
                            false,
                        )
                },
                Polled::Pending => {
                    &&& final(self).has_waker()
                    &&& forall|j: int|
                        0 <= j < old(self).items().len() ==> #[trigger] predicate.ensures(
                            (&old(self).items()[j],),
                            false,
                        )
                },
                Polled::Ready(None) => false,
            },
    {
        if self.tx_count == 0 {
            return Polled::Ready(None);
        }
        match self.position(predicate) {
            Some(i) => Polled::Ready(Some(i)),
            None => {
                self.rx_waker = Some(waker);
                Polled::Pending
            },
        }
    }

    /// Like [`Queue::poll_find`], but removes and returns the item.
    pub fn poll_remove<P: Fn(&T) -> bool>(&mut self, predicate: &P, waker: Waker) -> (r: Polled<T>)
        requires
            forall|x: &T| #[trigger] predicate.requires((x,)),
        ensures
            final(self).receivers() == old(self).receivers(),
            final(self).senders() == old(self).senders(),
            old(self).senders() == 0 ==> r matches Polled::Ready(None),
            old(self).senders() == 0 ==> final(self).items() == old(self).items(),
            old(self).senders() != 0 ==> match r {
                Polled::Ready(Some(x)) => exists|i: int|
                    {
                        &&& 0 <= i < old(self).items().len()
                        &&& x == old(self).items()[i]
                        &&& predicate.ensures((&old(self).items()[i],), true)
                        &&& forall|j: int|
                            0 <= j < i ==> #[trigger] predicate.ensures(
                                (&old(self).items()[j],),
                                false,
                            )
                        &&& final(self).items() == old(self).items().remove(i)
                    },
                Polled::Pending => {
                    &&& final(self).items() == old(self).items()
                    &&& final(self).has_waker()
                    &&& forall|j: int|
                        0 <= j < old(self).items().len() ==> #[trigger] predicate.ensures(
                            (&old(self).items()[j],),
                            false,
                        )
                },
                Polled::Ready(None) => false,
            },
    {
        if self.tx_count == 0 {
            return Polled::Ready(None);
        }
        match self.position(predicate) {
            Some(i) => {
                let ghost before = self.items();
                match self.data.remove(i) {
                    Some(item) => {
                        assert(item == before[i as int]);
                        Polled::Ready(Some(item))
                    },
                    None => Polled::Pending,
                }
            },
            None => {
                self.rx_waker = Some(waker);
                Polled::Pending
            },
        }
    }

    /// Remove all items that `predicate` accepts, keeping the order of the
    /// others; returns how many were removed.
    pub fn remove_matching<P: Fn(&T) -> bool>(&mut self, predicate: &P) -> (r: usize)
        requires
            forall|x: &T| #[trigger] predicate.requires((x,)),
        ensures
            final(self).receivers() == old(self).receivers(),
            final(self).senders() == old(self).senders(),
            final(self).has_waker() == old(self).has_waker(),
            r + final(self).items().len() == old(self).items().len(),
            kept_items(
                old(self).items(),
                final(self).items(),
                |x: T| predicate.ensures((&x,), false),
                |x: T| predicate.ensures((&x,), true),
            ),
    {
        let n = self.data.len();
        let mut kept: VecDeque<T> = VecDeque::new();
        let mut num_removed: usize = 0;
        let ghost old_items = self.items();
        let mut i: usize = 0;
        while i < n
            invariant
                n == old_items.len(),
                self.items().len() == n - i,
                forall|j: int| 0 <= j < n - i ==> self.items()[j] == old_items[j + i],
                i <= n,
                num_removed + kept@.len() == i,
                forall|x: &T| #[trigger] predicate.requires((x,)),
                kept_items(
                    old_items.take(i as int),
                    kept@,
                    |x: T| predicate.ensures((&x,), false),
                    |x: T| predicate.ensures((&x,), true),
                ),
                self.receivers() == old(self).receivers(),
                self.senders() == old(self).senders(),
                self.has_waker() == old(self).has_waker(),
            decreases n - i,
        {
            let item = self.data.pop_front().unwrap();
            assert(item == old_items[i as int]);
            assert(old_items.take(i + 1).drop_last() == old_items.take(i as int));
            let accepted = predicate(&item);
            if accepted {
                num_removed += 1;
            } else {
                let ghost before = kept@;
                kept.push_back(item);
                assert(kept@.drop_last() == before);
            }
            i += 1;
        }
        assert(old_items.take(n as int) == old_items);
        self.data = kept;
        num_removed
    }

    /// A counted sender was added.
    pub fn add_sender(&mut self)
        requires
            old(self).senders() < usize::MAX,
        ensures
            final(self).senders() == old(self).senders() + 1,
            final(self).items() == old(self).items(),
            final(self).receivers() == old(self).receivers(),
            final(self).has_waker() == old(self).has_waker(),
    {
        self.tx_count += 1;
    }

    /// A counted sender is gone; when it was the last one, the receiver is
    /// woken to see that.
    pub fn remove_sender(&mut self)
        requires
            old(self).senders() > 0,
        ensures
            final(self).senders() == old(self).senders() - 1,
            final(self).items() == old(self).items(),
            final(self).receivers() == old(self).receivers(),
            final(self).senders() == 0 ==> !final(self).has_waker(),
            final(self).senders() != 0 ==> final(self).has_waker() == old(self).has_waker(),
    {
        self.tx_count -= 1;
        if self.tx_count != 0 {
            return;
        }
        self.wake_rx();
    }

    /// The receiver is gone: no further access, and all queued data is
    /// dropped.
    pub fn remove_receiver(&mut self)
        requires
            old(self).receivers() == 1,
        ensures
            final(self).receivers() == 0,
            final(self).items() == Seq::<T>::empty(),
            final(self).senders() == old(self).senders(),
            final(self).has_waker() == old(self).has_waker(),
    {
        self.rx_count -= 1;
        self.data.clear();
    }
}

/// The lock invariant of a shared queue: there is at most one receiver, and
/// the count of senders can grow by one.
pub struct QueueInvariant;

impl<T> RwLockPredicate<Queue<T>> for QueueInvariant {
    open spec fn inv(self, q: Queue<T>) -> bool {
        q.receivers() <= 1 && q.senders() < usize::MAX
    }
}

/// The lock that the handles of one queue share.
pub type SharedQueue<T> = Arc<RwLock<Queue<T>, QueueInvariant>>;

/// Another handle on the same shared queue, with `Arc::clone`.
#[verifier::external_body]
fn share<T>(queue: &SharedQueue<T>) -> (r: SharedQueue<T>)
    ensures
        r == *queue,
{
    Arc::clone(queue)
}

/// The sending side of a queue. There may be any number of senders; a
/// counted sender keeps the receiver open.
pub struct Sender<T> {
    queue: SharedQueue<T>,
    counted: bool,
}

/// The receiving side of a queue; there is only one. It holds the queue
/// open until it is released.
pub struct Receiver<T> {
    queue: SharedQueue<T>,
    open: bool,
}

/// A queued item found by [`Receiver::poll_find`]; the queue stays locked
/// until it is released.
pub struct ValueRef<'a, T> {
    queue: Queue<T>,
    handle: WriteHandle<'a, Queue<T>, QueueInvariant>,
    index: usize,
}

impl<'a, T> ValueRef<'a, T> {
    /// The lock is held with the queue it protects, and the index is valid.
    pub closed spec fn wf(&self) -> bool {
        &&& self.handle.rwlock().inv(self.queue)
        &&& self.index < self.queue.items().len()
    }

    /// The lock of the queue that holds the found item.
    pub closed spec fn lock(&self) -> RwLock<Queue<T>, QueueInvariant> {
        self.handle.rwlock()
    }

    /// The found item.
    pub closed spec fn value(&self) -> T {
        self.queue.items()[self.index as int]
    }

    /// The found item.
    pub fn get(&self) -> (r: &T)
        requires
            self.wf(),
        ensures
            *r == self.value(),
    {
        self.queue.item(self.index)
    }

    /// Unlock the queue.
    pub fn release(self)
        requires
            self.wf(),
    {
        let ValueRef { queue, handle, index: _ } = self;
        handle.release_write(queue);
    }
}

/// A new queue and its two handles: one counted sender and the receiver.
pub fn channel<T>() -> (r: (Sender<T>, Receiver<T>))
    ensures
        r.0.is_counted(),
        r.0.same_queue(&r.1),
        r.1.is_open(),
{
    let queue = Arc::new(RwLock::new(Queue::new(), Ghost(QueueInvariant)));
    (Sender { queue: share(&queue), counted: true }, Receiver { queue, open: true })
}

impl<T> Sender<T> {
    /// Whether this sender keeps the receiver open.
    pub closed spec fn is_counted(&self) -> bool {
        self.counted
    }

    /// Whether this sender and `receiver` are handles on the same queue.
    pub closed spec fn same_queue(&self, receiver: &Receiver<T>) -> bool {
        self.queue == receiver.queue
    }

    /// The shared queue this sender is a handle on.
    pub closed spec fn shared(&self) -> SharedQueue<T> {
        self.queue
    }

    /// Queue `item` and wake the receiver; fails when the receiver is gone.
    /// Other handles act on the queue meanwhile, so which it is, is not
    /// known in advance.
    pub fn send(&self, item: T) -> (r: Result<(), Error>) {
        let (mut queue, handle) = self.queue.acquire_write();
        let r = queue.send(item);
        handle.release_write(queue);
        r
    }

    /// Whether the receiver is gone.
    pub fn is_closed(&self) -> (r: bool) {
        let (queue, handle) = self.queue.acquire_write();
        let r = queue.is_rx_closed();
        handle.release_write(queue);
        r
    }

    /// Another sender on the same queue that is not counted: once all
    /// counted senders are gone, the receiver is closed regardless of it.
    pub fn clone_uncounted(&self) -> (r: Self)
        ensures
            !r.is_counted(),
            r.shared() == self.shared(),
    {
        Sender { queue: share(&self.queue), counted: false }
    }

    /// Another counted sender on the same queue: it keeps the receiver open
    /// until it is released. Should the count of senders ever reach its
    /// limit, it stays there and the queue stays open for good.
    pub fn clone_counted(&self) -> (r: Self)
        ensures
            r.is_counted(),
            r.shared() == self.shared(),
    {
        let (mut queue, handle) = self.queue.acquire_write();
        if queue.below_sender_limit() {
            queue.add_sender();
        }
        handle.release_write(queue);
        Sender { queue: share(&self.queue), counted: true }
    }

    /// This sender is gone: a counted one no longer keeps the receiver open
    /// and wakes it when it was the last. It counts no more afterwards.
    pub fn release(&mut self)
        ensures
            !final(self).is_counted(),
            final(self).shared() == old(self).shared(),
            !old(self).is_counted() ==> *final(self) == *old(self),
    {
        if !self.counted {
            return;
        }
        self.counted = false;
        let (mut queue, handle) = self.queue.acquire_write();
        // a count that reached its limit stays there
        if queue.has_senders() && queue.below_sender_limit() {
            queue.remove_sender();
        }
        handle.release_write(queue);
    }
}

impl<T> Receiver<T> {
    /// Whether this receiver still holds its queue open.
    pub closed spec fn is_open(&self) -> bool {
        self.open
    }

    /// The shared queue this receiver is a handle on.
    pub closed spec fn shared(&self) -> SharedQueue<T> {
        self.queue
    }

    /// Whether no item is queued.
    pub fn is_empty(&mut self) -> (r: bool)
        ensures
            final(self).is_open() == old(self).is_open(),
            final(self).shared() == old(self).shared(),
    {
        let (queue, handle) = self.queue.acquire_write();
        let r = queue.is_empty();
        handle.release_write(queue);
        r
    }

    /// Poll for the oldest item; see [`Queue::poll_recv`].
    pub fn poll_recv(&mut self, waker: Waker) -> (r: Polled<T>)
        ensures
            final(self).is_open() == old(self).is_open(),
            final(self).shared() == old(self).shared(),
    {
        let (mut queue, handle) = self.queue.acquire_write();
        let r = queue.poll_recv(waker);
        handle.release_write(queue);
        r
    }

    /// Poll for an item that `predicate` accepts, and remove it; see
    /// [`Queue::poll_remove`].
    pub fn poll_remove<P: Fn(&T) -> bool>(&mut self, predicate: &P, waker: Waker) -> (r: Polled<T>)
        requires
            forall|x: &T| #[trigger] predicate.requires((x,)),
        ensures
            final(self).is_open() == old(self).is_open(),
            final(self).shared() == old(self).shared(),
    {
        let (mut queue, handle) = self.queue.acquire_write();
        let r = queue.poll_remove(predicate, waker);
        handle.release_write(queue);
        r
    }

    /// Poll for an item that `predicate` accepts; when found, the queue
    /// stays locked in the returned reference until it is released.
    pub fn poll_find<'a, P: Fn(&T) -> bool>(&'a mut self, predicate: &P, waker: Waker) -> (r: Polled<
        ValueRef<'a, T>,
    >)
        requires
            forall|x: &T| #[trigger] predicate.requires((x,)),
        ensures
            r matches Polled::Ready(Some(v)) ==> {
                &&& v.wf()
                &&& predicate.ensures((&v.value(),), true)
                &&& v.lock() == *old(self).shared()
            },
    {
        let (mut queue, handle) = self.queue.acquire_write();
        match queue.poll_find(predicate, waker) {
            Polled::Ready(Some(index)) => Polled::Ready(Some(ValueRef { queue, handle, index })),
            Polled::Ready(None) => {
                handle.release_write(queue);
                Polled::Ready(None)
            },
            Polled::Pending => {
                handle.release_write(queue);
                Polled::Pending
            },
        }
    }

    /// Remove all items that `predicate` accepts; see
    /// [`Queue::remove_matching`].
    pub fn remove_matching<P: Fn(&T) -> bool>(&mut self, predicate: &P) -> (r: usize)
        requires
            forall|x: &T| #[trigger] predicate.requires((x,)),
        ensures
            final(self).is_open() == old(self).is_open(),
            final(self).shared() == old(self).shared(),
    {
        let (mut queue, handle) = self.queue.acquire_write();
        let r = queue.remove_matching(predicate);
        handle.release_write(queue);
        r
    }

    /// The receiver is gone: senders fail from now on and the queued data
    /// is dropped.
    pub fn release(&mut self)
        ensures
            !final(self).is_open(),
            final(self).shared() == old(self).shared(),
    {
        if !self.open {
            return;
        }
        self.open = false;
        let (mut queue, handle) = self.queue.acquire_write();
        if queue.is_rx_open() {
            queue.remove_receiver();
        }
        handle.release_write(queue);
    }
}

/// `kept` is what remains of `items` when each item is either kept, where
/// `refused` holds of it, or dropped, where `accepted` holds of it, the kept
/// ones in their order.
pub open spec fn kept_items<T>(
    items: Seq<T>,
    kept: Seq<T>,
    refused: spec_fn(T) -> bool,
    accepted: spec_fn(T) -> bool,
) -> bool
    decreases items.len(),
{
    if items.len() == 0 {
        kept.len() == 0
    } else {
        ||| kept.len() > 0 && kept.last() == items.last() && refused(items.last()) && kept_items(
            items.drop_last(),
            kept.drop_last(),
            refused,
            accepted,
        )
        ||| accepted(items.last()) && kept_items(items.drop_last(), kept, refused, accepted)
    }
}

/// Items leave the queue in the order they were sent: after sending `x` to
/// a queue holding `s`, receiving gives the oldest item (`x` itself if the
/// queue was empty) and leaves the others, `x` last.
pub proof fn law_fifo<T>(s: Seq<T>, x: T)
    ensures
        s.push(x)[0] == (if s.len() > 0 {
            s[0]
        } else {
            x
        }),
        s.push(x).drop_first() == (if s.len() > 0 {
            s.drop_first().push(x)
        } else {
            Seq::<T>::empty()
        }),
{
    if s.len() > 0 {
        assert(s.push(x).drop_first() =~= s.drop_first().push(x));
    } else {
        assert(s.push(x).drop_first() =~= Seq::<T>::empty());
    }
}

} // verus!
