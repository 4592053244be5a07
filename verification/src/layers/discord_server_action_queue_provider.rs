//! A layer that hands a clone of the queue of server actions to another
//! service with every request.

use vstd::prelude::*;

verus! {

/// A layer which provides a cloned queue Service to another Service,
/// enabling the consuming Service to send DiscordServerActions into the
/// queue service.
pub struct DiscordServerActionQueueProviderLayer<Q> {
    queue_service: Q,
}

/// Wraps a service that requires a DiscordServerAction queue with that queue,
/// reducing its request type from (Q, Request) to just Request.
/// Q will be cloned for every request to S so it should typically be wrapped
/// in an Arc or otherwise be cheaply clonable.
pub struct DiscordServerActionQueueService<Q, S> {
    queue_service: Q,
    inner: S,
}

impl<Q> DiscordServerActionQueueProviderLayer<Q> {
    /// The queue service that the layer hands out.
    pub closed spec fn queue_service(self) -> Q {
        self.queue_service
    }

    /// Create a new DiscordServerActionQueueProviderLayer
    pub fn new(queue_service: Q) -> (layer: Self)
        ensures
            layer.queue_service() == queue_service,
    {
        Self { queue_service }
    }

    /// Wraps `inner`, giving it a clone of the queue service.
    pub fn layer<S>(&self, inner: S) -> (service: DiscordServerActionQueueService<Q, S>) where
        Q: Clone,

        ensures
            service.inner() == inner,
            cloned(self.queue_service(), service.queue_service()),
    {
        DiscordServerActionQueueService { queue_service: self.queue_service.clone(), inner }
    }
}

impl<Q, S> DiscordServerActionQueueService<Q, S> {
    /// The queue service that goes out with every request.
    pub closed spec fn queue_service(self) -> Q {
        self.queue_service
    }

    /// The wrapped service.
    pub closed spec fn inner(self) -> S {
        self.inner
    }

    /// The wrapped service, to be polled and called.
    pub fn inner_mut(&mut self) -> (inner: &mut S)
        ensures
            *inner == old(self).inner(),
            final(self).inner() == *final(inner),
            final(self).queue_service() == old(self).queue_service(),
    {
        &mut self.inner
    }

    /// The request that goes to the inner service for `req`: a clone of the
    /// queue service, and `req` itself.
    pub fn call<Request>(&self, req: Request) -> (inner_request: (Q, Request)) where Q: Clone
        ensures
            cloned(self.queue_service(), inner_request.0),
            inner_request.1 == req,
    {
        (self.queue_service.clone(), req)
    }
}

} // verus!
