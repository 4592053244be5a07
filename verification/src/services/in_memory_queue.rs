//! A queue in memory: a service that sends into an unbounded channel, and
//! the one subscription that receives from it.

use crate::channels::{is_unbounded_channel, send_on, sent};
use vstd::prelude::*;

verus! {

/// An in-memory background task queue service, wrapping the sending half of
/// an unbounded channel.
/// This service is Clone, so multiple services can insert into
/// this queue at once.
/// This service is fire-and-forget; it provides no mechanism
/// to recover from errors on the other end. It can only
/// detect if it is attempting to send to a closed channel.
#[derive(Debug, Clone)]
#[verifier::reject_recursive_types(T)]
pub struct InMemoryQueueService<T>(tokio::sync::mpsc::UnboundedSender<T>);

/// The receiving end of the in-memory queue. There can only be
/// one such subscription, so it is not Clone.
#[derive(Debug)]
#[verifier::reject_recursive_types(T)]
pub struct InMemoryQueueSubscription<T>(tokio::sync::mpsc::UnboundedReceiver<T>);

impl<T> InMemoryQueueService<T> {
    /// The sending half of the channel.
    pub closed spec fn sender(self) -> tokio::sync::mpsc::UnboundedSender<T> {
        self.0
    }

    /// The sending half of the channel.
    pub fn deref(&self) -> (sender: &tokio::sync::mpsc::UnboundedSender<T>)
        ensures
            *sender == self.sender(),
    {
        &self.0
    }

    /// The queue is always ready: an unbounded channel never makes a sender
    /// wait.
    pub fn poll_ready(&self) -> (ready: Option<Result<(), T>>)
        ensures
            ready matches Some(Ok(_)),
    {
        Some(Ok(()))
    }

    /// Puts `req` on the queue: sends it on the service's half of the
    /// channel and gives the channel's answer. If the subscription is gone,
    /// `req` comes back.
    pub fn call(&self, req: T) -> (answer: Result<(), T>)
        ensures
            sent(self.sender(), req, answer),
            answer matches Err(returned) ==> returned == req,
    {
        send_on(&self.0, req)
    }
}

impl<T> InMemoryQueueSubscription<T> {
    /// The receiving half of the channel.
    pub closed spec fn receiver(self) -> tokio::sync::mpsc::UnboundedReceiver<T> {
        self.0
    }

    /// The receiving half of the channel.
    pub fn deref(&self) -> (receiver: &tokio::sync::mpsc::UnboundedReceiver<T>)
        ensures
            *receiver == self.receiver(),
    {
        &self.0
    }

    /// The receiving half of the channel, to receive from.
    pub fn deref_mut(&mut self) -> (receiver: &mut tokio::sync::mpsc::UnboundedReceiver<T>)
        ensures
            *receiver == old(self).receiver(),
            final(self).receiver() == *final(receiver),
    {
        &mut self.0
    }
}

/// Create an in-memory queue service and a subscription handle to it: the
/// two halves of one new channel.
pub fn in_memory_queue<T>() -> (queue: (InMemoryQueueService<T>, InMemoryQueueSubscription<T>))
    ensures
        is_unbounded_channel(queue.0.sender(), queue.1.receiver()),
{
    let (tx, rx) = tokio::sync::mpsc::unbounded_channel();
    (InMemoryQueueService(tx), InMemoryQueueSubscription(rx))
}

} // verus!
