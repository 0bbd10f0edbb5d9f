//! Event dispatch bridge.
//!
//! A session listener receives protocol calls on its own worker thread and
//! turns each into one event; a single-threaded consumer drains those
//! events at its own pace.  The bridge between them is a queue with
//! unbounded logical capacity and strict FIFO order: events reach the
//! consumer in exactly the order the peer issued them, with no reordering
//! and no coalescing.
//!
//! The queue keeps two ghost histories: everything the producer ever
//! enqueued, and everything the consumer has already taken out.  Its
//! well-formedness ties them together: the push history is precisely the
//! delivery history followed by what is still pending.  Order preservation
//! follows for every client of the bridge.

use vstd::prelude::*;
use std::collections::VecDeque;

verus! {

use crate::error::Error;

/// FIFO queue from a session listener to its consumer.
///
/// The producer side fails with [`Error::Backpressure`] once the consumer
/// is gone; the consumer side never blocks (polling an empty queue returns
/// nothing).
pub struct EventQueue<T> {
    /// Events enqueued but not yet taken by the consumer.
    pending: VecDeque<T>,
    /// Whether the consumer end still exists.
    consumer_attached: bool,
    /// History of every event ever accepted from the producer.
    pushed: Ghost<Seq<T>>,
    /// History of every event handed to the consumer, in hand-out order.
    delivered: Ghost<Seq<T>>,
}

impl<T> EventQueue<T> {
    /// Events enqueued but not yet taken by the consumer.
    pub closed spec fn pending_events(&self) -> Seq<T> {
        self.pending@
    }

    /// Every event the producer successfully enqueued, oldest first.
    pub closed spec fn pushed_events(&self) -> Seq<T> {
        self.pushed@
    }

    /// Every event the consumer has taken out, oldest first.
    pub closed spec fn delivered_events(&self) -> Seq<T> {
        self.delivered@
    }

    /// Whether the consumer end still exists.
    pub closed spec fn consumer_present(&self) -> bool {
        self.consumer_attached
    }

    /// The queue's invariant: the push history is the delivery history
    /// followed by what is still pending.
    pub open spec fn wf(&self) -> bool {
        self.pushed_events() == self.delivered_events() + self.pending_events()
    }

    /// A fresh bridge with no history and a live consumer.
    pub fn new() -> (q: Self)
        ensures
            q.wf(),
            q.pending_events() === Seq::<T>::empty(),
            q.pushed_events() === Seq::<T>::empty(),
            q.delivered_events() === Seq::<T>::empty(),
            q.consumer_present(),
    {
        let q = EventQueue {
            pending: VecDeque::new(),
            consumer_attached: true,
            pushed: Ghost(Seq::empty()),
            delivered: Ghost(Seq::empty()),
        };
        proof {
            assert(q.pushed_events() =~= q.delivered_events() + q.pending_events());
        }
        q
    }

    /// Producer side: enqueue one event.
    ///
    /// Succeeds exactly as long as the consumer end exists; afterwards it
    /// fails with [`Error::Backpressure`] and changes nothing.
    pub fn push(&mut self, event: T) -> (r: Result<(), Error>)
        requires
            old(self).wf(),
        ensures
            final(self).wf(),
            final(self).consumer_present() == old(self).consumer_present(),
            final(self).delivered_events() == old(self).delivered_events(),
            old(self).consumer_present() ==> {
                &&& r is Ok
                &&& final(self).pending_events() == old(self).pending_events().push(event)
                &&& final(self).pushed_events() == old(self).pushed_events().push(event)
            },
            !old(self).consumer_present() ==> {
                &&& r == Result::<(), Error>::Err(Error::Backpressure)
                &&& final(self).pending_events() == old(self).pending_events()
                &&& final(self).pushed_events() == old(self).pushed_events()
            },
    {
        if !self.consumer_attached {
            return Err(Error::Backpressure);
        }
        self.pending.push_back(event);
        proof {
            self.pushed@ = self.pushed@.push(event);
            assert(self.pushed_events() =~= self.delivered_events() + self.pending_events());
        }
        Ok(())
    }

    /// Consumer side: take the oldest pending event, if any.
    pub fn poll(&mut self) -> (r: Option<T>)
        requires
            old(self).wf(),
        ensures
            final(self).wf(),
            final(self).consumer_present() == old(self).consumer_present(),
            final(self).pushed_events() == old(self).pushed_events(),
            old(self).pending_events().len() == 0 ==> {
                &&& r is None
                &&& final(self).pending_events() == old(self).pending_events()
                &&& final(self).delivered_events() == old(self).delivered_events()
            },
            old(self).pending_events().len() > 0 ==> {
                &&& r == Some(old(self).pending_events()[0])
                &&& final(self).pending_events() == old(self).pending_events().drop_first()
                &&& final(self).delivered_events() == old(self).delivered_events().push(
                    old(self).pending_events()[0],
                )
            },
    {
        let r = self.pending.pop_front();
        proof {
            if old(self).pending_events().len() > 0 {
                self.delivered@ = self.delivered@.push(old(self).pending_events()[0]);
                assert(self.pending_events() =~= old(self).pending_events().drop_first());
                assert(self.pushed_events() =~= self.delivered_events() + self.pending_events());
            }
        }
        r
    }

    /// Number of pending events.
    pub fn len(&self) -> (n: usize)
        ensures
            n == self.pending_events().len(),
    {
        self.pending.len()
    }

    /// Whether no event is pending.
    pub fn is_empty(&self) -> (b: bool)
        ensures
            b == (self.pending_events().len() == 0),
    {
        self.pending.len() == 0
    }

    /// Consumer side: give the consumer end up.  Later pushes fail with
    /// [`Error::Backpressure`].
    pub fn drop_consumer(&mut self)
        requires
            old(self).wf(),
        ensures
            final(self).wf(),
            !final(self).consumer_present(),
            final(self).pending_events() == old(self).pending_events(),
            final(self).pushed_events() == old(self).pushed_events(),
            final(self).delivered_events() == old(self).delivered_events(),
    {
        self.consumer_attached = false;
    }
}

/// One event went from the producer into the queue: the push history and
/// the pending events grew by exactly that event, and the consumer side is
/// untouched.
pub open spec fn queue_accepts<T>(pre: EventQueue<T>, post: EventQueue<T>, e: T) -> bool {
    &&& post.pushed_events() == pre.pushed_events().push(e)
    &&& post.pending_events() == pre.pending_events().push(e)
    &&& post.delivered_events() == pre.delivered_events()
    &&& post.consumer_present() == pre.consumer_present()
}

/// Nothing entered or left the queue.
pub open spec fn queue_unchanged<T>(pre: EventQueue<T>, post: EventQueue<T>) -> bool {
    &&& post.pushed_events() == pre.pushed_events()
    &&& post.pending_events() == pre.pending_events()
    &&& post.delivered_events() == pre.delivered_events()
    &&& post.consumer_present() == pre.consumer_present()
}

/// Law: the bridge preserves order.  Whatever the consumer has observed is
/// an exact prefix of the push history, so if a peer issued one call before
/// another, the consumer sees their events in that same order, with nothing
/// reordered and nothing coalesced.
pub proof fn lemma_delivery_preserves_order<T>(q: &EventQueue<T>)
    requires
        q.wf(),
    ensures
        q.delivered_events().len() <= q.pushed_events().len(),
        forall|i: int|
            0 <= i < q.delivered_events().len() ==> q.delivered_events()[i]
                == q.pushed_events()[i],
        forall|i: int|
            0 <= i < q.pending_events().len() ==> q.pending_events()[i] == q.pushed_events()[i
                + q.delivered_events().len()],
{
}

} // verus!
