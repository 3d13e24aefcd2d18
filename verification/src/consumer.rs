//! The two handles of a subscription: [`Consumer`], which the application
//! polls, and [`ConsumerSub`], which the network side pushes into.

use crate::inner::ConsumerInner;
use crate::shared::lock;
use crate::shared::protect;
use crate::shared::record;
use crate::shared::share;
use lapin_async::message::Delivery;
use lapin_async::types::ShortString;
use parking_lot::Mutex;
use std::sync::Arc;
use std::task::Context;
use std::task::Poll;
use vstd::prelude::*;

verus! {

/// The producer's handle on a subscription.
#[derive(Clone, Debug)]
pub struct ConsumerSub {
    inner: Arc<Mutex<ConsumerInner>>,
}

impl ConsumerSub {
    /// The lock that this handle reaches its record through. Two handles with
    /// the same lock are handles on the same subscription.
    pub closed spec fn shared(&self) -> Mutex<ConsumerInner> {
        *self.inner
    }

    /// Hands a delivery to the subscription: under the lock,
    /// [`ConsumerInner::new_delivery`].
    pub fn new_delivery(&self, delivery: Delivery) {
        let mut taken = lock(&self.inner);
        let state = record(&mut taken);
        state.new_delivery(delivery);
    }

    /// Discards what is queued: under the lock,
    /// [`ConsumerInner::drop_prefetched_messages`].
    pub fn drop_prefetched_messages(&self) {
        let mut taken = lock(&self.inner);
        let state = record(&mut taken);
        state.drop_prefetched_messages();
    }

    /// Ends the subscription: under the lock, [`ConsumerInner::cancel`].
    pub fn cancel(&self) {
        let mut taken = lock(&self.inner);
        let state = record(&mut taken);
        state.cancel();
    }
}

/// What identifies a consumer: the channel it lives on, the queue it reads
/// and the tag under which the peer knows it.
pub struct ConsumerId {
    pub channel_id: u16,
    pub queue: ShortString,
    pub consumer_tag: ShortString,
}

/// The application's handle on a subscription.
#[derive(Clone)]
pub struct Consumer {
    inner: Arc<Mutex<ConsumerInner>>,
    channel_id: u16,
    queue: ShortString,
    consumer_tag: ShortString,
}

impl View for Consumer {
    type V = ConsumerId;

    closed spec fn view(&self) -> ConsumerId {
        ConsumerId {
            channel_id: self.channel_id,
            queue: self.queue,
            consumer_tag: self.consumer_tag,
        }
    }
}

impl Consumer {
    /// The lock that this handle reaches its record through.
    pub closed spec fn shared(&self) -> Mutex<ConsumerInner> {
        *self.inner
    }

    /// A consumer with a record of its own, on which nothing has happened yet.
    pub fn new(channel_id: u16, queue: ShortString, consumer_tag: ShortString) -> (consumer:
        Consumer)
        ensures
            consumer@ == (ConsumerId { channel_id, queue, consumer_tag }),
    {
        Consumer {
            inner: Arc::new(protect(ConsumerInner::default())),
            channel_id,
            queue,
            consumer_tag,
        }
    }

    /// Replaces the tag, as when the peer has assigned another one.
    pub fn update_consumer_tag(&mut self, consumer_tag: ShortString)
        ensures
            final(self)@ == (ConsumerId { consumer_tag, ..old(self)@ }),
            final(self).shared() == old(self).shared(),
    {
        self.consumer_tag = consumer_tag;
    }

    /// A producer's handle on the same subscription.
    pub fn subscriber(&self) -> (sub: ConsumerSub)
        ensures
            sub.shared() == self.shared(),
    {
        ConsumerSub { inner: share(&self.inner) }
    }

    /// The channel that the consumer lives on.
    pub fn channel_id(&self) -> (id: u16)
        ensures
            id == self@.channel_id,
    {
        self.channel_id
    }

    /// The queue that the consumer reads.
    pub fn queue(&self) -> (queue: &ShortString)
        ensures
            *queue == self@.queue,
    {
        &self.queue
    }

    /// The tag under which the peer knows the consumer.
    pub fn consumer_tag(&self) -> (tag: &ShortString)
        ensures
            *tag == self@.consumer_tag,
    {
        &self.consumer_tag
    }

    /// One poll by the task of `cx`: under the lock,
    /// [`ConsumerInner::poll_next`] with that task's wake token. The handle
    /// itself stays as it is.
    pub fn poll_next(&mut self, cx: &mut Context<'_>) -> (step: Poll<Option<Delivery>>)
        ensures
            final(self)@ == old(self)@,
            final(self).shared() == old(self).shared(),
    {
        let mut taken = lock(&self.inner);
        let state = record(&mut taken);
        state.poll_next(cx.waker())
    }
}

} // verus!
