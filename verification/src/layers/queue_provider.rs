//! A layer that hands a clone of a queue service to another service with
//! every request, so that the other service can queue work of its own.

use std::marker::PhantomData;
use vstd::prelude::*;

verus! {

/// What can go wrong in a service that was given a queue.
#[derive(Debug)]
pub enum QueueProviderLayerError<Q, I> {
    /// The queue service reported an error.
    QueueError(Q),
    /// The inner service reported an error.
    InnerError(I),
}

/// A layer which provides a cloned queue Service to another Service,
/// enabling the consuming Service to send messages into the
/// queue service.
pub struct QueueProviderLayer<Q, T> {
    queue_service: Q,
    _message: PhantomData<T>,
}

/// Wraps a service that requires a queue to send Ts into with that queue,
/// reducing its request type from (Q, Request) to just Request.
/// Q will be cloned for every request to S so it should typically be wrapped
/// in an Arc or otherwise be cheaply clonable.
pub struct QueueProviderService<Q, T, S> {
    queue_service: Q,
    inner: S,
    _message: PhantomData<T>,
}

/// The future of a [`QueueProviderService`]: the inner service's future, with
/// its error marked as the inner service's.
pub struct QueueProviderFuture<F, Q> {
    future: F,
    _queue_error: PhantomData<Q>,
}

/// The readiness of the two services together. `None` stands for a service
/// that is not ready yet.
///
/// An error of the inner service comes first, then one of the queue. Without
/// an error, the pair is ready when both are.
pub open spec fn combined_readiness<Q, I>(
    queue_ready: Option<Result<(), Q>>,
    inner_ready: Option<Result<(), I>>,
) -> Option<Result<(), QueueProviderLayerError<Q, I>>> {
    match (queue_ready, inner_ready) {
        (_, Some(Err(error))) => Some(Err(QueueProviderLayerError::InnerError(error))),
        (Some(Err(error)), _) => Some(Err(QueueProviderLayerError::QueueError(error))),
        (Some(Ok(())), Some(Ok(()))) => Some(Ok(())),
        _ => None,
    }
}

/// What the future gives when the inner service's future gives `polled`;
/// `None` stands for a future that is not finished.
pub open spec fn wrapped_output<T, Q, I>(polled: Option<Result<T, I>>) -> Option<
    Result<T, QueueProviderLayerError<Q, I>>,
> {
    match polled {
        Some(Ok(response)) => Some(Ok(response)),
        Some(Err(error)) => Some(Err(QueueProviderLayerError::InnerError(error))),
        None => None,
    }
}

impl<Q, T> QueueProviderLayer<Q, T> {
    /// The queue service that the layer hands out.
    pub closed spec fn queue_service(self) -> Q {
        self.queue_service
    }

    /// Create a new QueueProviderLayer
    pub fn new(queue_service: Q) -> (layer: Self)
        ensures
            layer.queue_service() == queue_service,
    {
        Self { queue_service, _message: PhantomData }
    }

    /// Wraps `inner`, giving it a clone of the queue service.
    pub fn layer<S>(&self, inner: S) -> (service: QueueProviderService<Q, T, S>) where Q: Clone
        ensures
            service.inner() == inner,
            cloned(self.queue_service(), service.queue_service()),
    {
        QueueProviderService {
            queue_service: self.queue_service.clone(),
            inner,
            _message: PhantomData,
        }
    }
}

impl<Q, T, S> QueueProviderService<Q, T, S> {
    /// The queue service that goes out with every request.
    pub closed spec fn queue_service(self) -> Q {
        self.queue_service
    }

    /// The wrapped service.
    pub closed spec fn inner(self) -> S {
        self.inner
    }

    /// The queue service, to be polled.
    pub fn queue_mut(&mut self) -> (queue_service: &mut Q)
        ensures
            *queue_service == old(self).queue_service(),
            final(self).queue_service() == *final(queue_service),
            final(self).inner() == old(self).inner(),
    {
        &mut self.queue_service
    }

    /// The wrapped service, to be polled and called.
    pub fn inner_mut(&mut self) -> (inner: &mut S)
        ensures
            *inner == old(self).inner(),
            final(self).inner() == *final(inner),
            final(self).queue_service() == old(self).queue_service(),
    {
        &mut self.inner
    }

    /// Combines what the two services answered when polled; `None` stands for
    /// a service that is not ready yet.
    ///
    /// Ready if and only if both are ready and well. An error of the inner
    /// service is surfaced as `InnerError`, before any of the queue; an error
    /// of the queue as `QueueError`. Otherwise at least one of the two is
    /// not ready, and neither is the pair.
    pub fn poll_ready<I, E>(queue_ready: Option<Result<(), E>>, inner_ready: Option<Result<(), I>>) -> (ready:
        Option<Result<(), QueueProviderLayerError<E, I>>>)
        ensures
            ready == combined_readiness(queue_ready, inner_ready),
    {
        match (queue_ready, inner_ready) {
            (_, Some(Err(error))) => Some(Err(QueueProviderLayerError::InnerError(error))),
            (Some(Err(error)), _) => Some(Err(QueueProviderLayerError::QueueError(error))),
            (Some(Ok(())), Some(Ok(()))) => Some(Ok(())),
            _ => None,
        }
    }

    /// The request that goes to the inner service for `req`: a clone of the
    /// queue service, and `req` itself.
    pub fn call<Request>(&self, req: Request) -> (inner_request: (Q, Request)) where Q: Clone
        ensures
            cloned(self.queue_service(), inner_request.0),
            inner_request.1 == req,
    {
        (self.queue_service.clone(), req)
    }
}

impl<F, Q> QueueProviderFuture<F, Q> {
    /// The inner service's future.
    pub closed spec fn future(self) -> F {
        self.future
    }

    /// Wraps the future of the inner service.
    pub fn new(future: F) -> (wrapped: Self)
        ensures
            wrapped.future() == future,
    {
        Self { future, _queue_error: PhantomData }
    }

    /// The inner service's future, to be polled.
    pub fn future_mut(&mut self) -> (future: &mut F)
        ensures
            *future == old(self).future(),
            final(self).future() == *final(future),
    {
        &mut self.future
    }

    /// What the future gives when the inner future gave `polled`; `None`
    /// stands for a future that is not finished.
    ///
    /// A response passes through. An error is always the inner service's: it
    /// is wrapped as `InnerError`, even where it came from a queue that the
    /// inner service used.
    pub fn poll<T, I>(polled: Option<Result<T, I>>) -> (output: Option<
        Result<T, QueueProviderLayerError<Q, I>>,
    >)
        ensures
            output == wrapped_output::<T, Q, I>(polled),
    {
        match polled {
            Some(Ok(response)) => Some(Ok(response)),
            Some(Err(error)) => Some(Err(QueueProviderLayerError::InnerError(error))),
            None => None,
        }
    }
}

/// The pair is ready exactly when both services are ready and well, and
/// waits exactly when neither has failed and one of them waits.
pub proof fn lemma_readiness<Q, I>(
    queue_ready: Option<Result<(), Q>>,
    inner_ready: Option<Result<(), I>>,
)
    ensures
        combined_readiness(queue_ready, inner_ready) matches Some(Ok(_)) <==> (queue_ready matches Some(
            Ok(_),
        ) && inner_ready matches Some(Ok(_))),
        combined_readiness(queue_ready, inner_ready) is None <==> (!(queue_ready matches Some(
            Err(_),
        )) && !(inner_ready matches Some(Err(_))) && (queue_ready is None || inner_ready
            is None)),
        inner_ready matches Some(Err(error)) ==> combined_readiness(queue_ready, inner_ready)
            == Some(Err::<(), QueueProviderLayerError<Q, I>>(QueueProviderLayerError::InnerError(error))),
        (queue_ready matches Some(Err(error)) && !(inner_ready matches Some(Err(_))))
            ==> combined_readiness(queue_ready, inner_ready) == Some(
            Err::<(), QueueProviderLayerError<Q, I>>(
                QueueProviderLayerError::QueueError(queue_ready->0->Err_0),
            ),
        ),
{
}

} // verus!
