//! The record that the two handles of a subscription share, and its model.

use lapin_async::message::Delivery;
use std::collections::VecDeque;
use std::task::Poll;
use std::task::Waker;
use vstd::prelude::*;

verus! {

/// The model of a subscription: what is queued, whom to wake, and whether the
/// subscription has been canceled.
pub struct ConsumerState {
    /// The deliveries that no poll has handed out yet, oldest first.
    pub pending: Seq<Delivery>,
    /// The wake token on record, if any.
    pub task: Option<Waker>,
    /// Whether the subscription was canceled. Once true it stays true.
    pub canceled: bool,
}

impl ConsumerState {
    /// A subscription on which nothing has happened yet.
    pub open spec fn fresh() -> ConsumerState {
        ConsumerState { pending: Seq::empty(), task: None, canceled: false }
    }

    /// The state after `delivery` has arrived: it is queued behind all others.
    pub open spec fn push(self, delivery: Delivery) -> ConsumerState {
        ConsumerState { pending: self.pending.push(delivery), ..self }
    }

    /// Whether an arriving delivery signals a wake token: one must be on record.
    pub open spec fn wakes(self) -> bool {
        self.task is Some
    }

    /// The state after the queued deliveries have been discarded.
    pub open spec fn clear(self) -> ConsumerState {
        ConsumerState { pending: Seq::empty(), ..self }
    }

    /// The state after a cancel: nothing queued, no wake token, canceled.
    pub open spec fn cancel(self) -> ConsumerState {
        ConsumerState { pending: Seq::empty(), task: None, canceled: true }
    }

    /// What a poll returns in this state: the oldest queued delivery; or the
    /// end of the sequence, if nothing is queued and the subscription is
    /// canceled; or "not ready".
    pub open spec fn outcome(self) -> Poll<Option<Delivery>> {
        if self.pending.len() > 0 {
            Poll::Ready(Some(self.pending.first()))
        } else if self.canceled {
            Poll::Ready(None)
        } else {
            Poll::Pending
        }
    }

    /// The state after a poll whose own wake token is `token`: the token is put
    /// on record unless one is there already, and the oldest queued delivery,
    /// if there is one, has left the queue.
    pub open spec fn after_poll(self, token: Waker) -> ConsumerState {
        ConsumerState {
            pending: if self.pending.len() > 0 {
                self.pending.drop_first()
            } else {
                self.pending
            },
            task: match self.task {
                Some(t) => Some(t),
                None => Some(token),
            },
            canceled: self.canceled,
        }
    }

    /// Whether the subscription has ended: it is canceled and nothing is
    /// queued, so that a poll reports the end of the sequence.
    pub open spec fn ended(self) -> bool {
        self.canceled && self.pending.len() == 0
    }

    /// The state after the deliveries of `deliveries` have arrived one by one,
    /// the first of them first.
    pub open spec fn push_all(self, deliveries: Seq<Delivery>) -> ConsumerState
        decreases deliveries.len(),
    {
        if deliveries.len() == 0 {
            self
        } else {
            self.push(deliveries.first()).push_all(deliveries.drop_first())
        }
    }

    /// The state after one poll for each token of `tokens`, in their order,
    /// with nothing else happening in between.
    pub open spec fn after_polls(self, tokens: Seq<Waker>) -> ConsumerState
        decreases tokens.len(),
    {
        if tokens.len() == 0 {
            self
        } else {
            self.after_poll(tokens.first()).after_polls(tokens.drop_first())
        }
    }

    /// What those polls return, one entry for each.
    pub open spec fn outcomes(self, tokens: Seq<Waker>) -> Seq<Poll<Option<Delivery>>>
        decreases tokens.len(),
    {
        if tokens.len() == 0 {
            Seq::empty()
        } else {
            seq![self.outcome()] + self.after_poll(tokens.first()).outcomes(tokens.drop_first())
        }
    }

    /// What the poll at position `i` of a run of polls returns: the delivery
    /// at that position of the queue, as long as the queue reaches that far;
    /// behind it the end of the sequence or "not ready".
    pub open spec fn outcome_at(self, i: int) -> Poll<Option<Delivery>> {
        if 0 <= i < self.pending.len() {
            Poll::Ready(Some(self.pending[i]))
        } else if self.canceled {
            Poll::Ready(None)
        } else {
            Poll::Pending
        }
    }
}

/// The shared record of a subscription.
#[derive(Debug)]
pub struct ConsumerInner {
    deliveries: VecDeque<Delivery>,
    task: Option<Waker>,
    canceled: bool,
}

impl View for ConsumerInner {
    type V = ConsumerState;

    closed spec fn view(&self) -> ConsumerState {
        ConsumerState { pending: self.deliveries@, task: self.task, canceled: self.canceled }
    }
}

impl Default for ConsumerInner {
    /// A record with nothing queued, no wake token and not canceled.
    fn default() -> (inner: ConsumerInner)
        ensures
            inner@ == ConsumerState::fresh(),
    {
        ConsumerInner { deliveries: VecDeque::new(), task: None, canceled: false }
    }
}

impl ConsumerInner {
    /// Queues `delivery` behind all others and, if a wake token is on record,
    /// signals it and leaves it on record. Returns whether it signalled one.
    pub fn new_delivery(&mut self, delivery: Delivery) -> (signalled: bool)
        ensures
            final(self)@ == old(self)@.push(delivery),
            signalled == old(self)@.wakes(),
    {
        self.deliveries.push_back(delivery);
        match self.task.as_ref() {
            Some(task) => {
                task.wake_by_ref();
                true
            },
            None => false,
        }
    }

    /// Discards every queued delivery. The wake token and the canceled flag
    /// stay as they are.
    pub fn drop_prefetched_messages(&mut self)
        ensures
            final(self)@ == old(self)@.clear(),
    {
        self.deliveries.clear();
    }

    /// Cancels the subscription: discards every queued delivery and drops the
    /// wake token without signalling it.
    pub fn cancel(&mut self)
        ensures
            final(self)@ == old(self)@.cancel(),
    {
        self.deliveries.clear();
        self.canceled = true;
        self.task.take();
    }

    /// One poll by the task whose wake token is `waker`.
    ///
    /// Returns the oldest queued delivery and removes it; or the end of the
    /// sequence, if nothing is queued and the subscription is canceled; or
    /// "not ready". If no wake token was on record, a clone of `waker` is now.
    pub fn poll_next(&mut self, waker: &Waker) -> (step: Poll<Option<Delivery>>)
        ensures
            step == old(self)@.outcome(),
            final(self)@.task matches Some(recorded) && {
                &&& final(self)@ == old(self)@.after_poll(recorded)
                &&& old(self)@.task is None ==> cloned::<Waker>(*waker, recorded)
            },
    {
        if self.task.is_none() {
            self.task = Some(waker.clone());
        }
        match self.deliveries.pop_front() {
            Some(delivery) => Poll::Ready(Some(delivery)),
            None => {
                if self.canceled {
                    Poll::Ready(None)
                } else {
                    Poll::Pending
                }
            },
        }
    }
}

} // verus!
