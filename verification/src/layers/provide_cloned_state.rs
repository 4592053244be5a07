//! A layer that hands a clone of a shared state to another service with
//! every request.

use std::marker::PhantomData;
use std::sync::Arc;
use vstd::prelude::*;

verus! {

/// A layer which provides a clonable state parameter of type T
/// to a service processing requests of type (T, R), reducing it
/// to a service which takes requests of type R alone.
pub struct ClonedStateProviderLayer<T, R> {
    state: T,
    _inner_request: PhantomData<R>,
}

/// A service which wraps a service of requests `(T, R)`, making it a
/// service of `R` by cloning T for every request.
pub struct CloneStateProviderService<T, S, R> {
    state: T,
    inner: S,
    _inner_request: PhantomData<R>,
}

impl<T, R> ClonedStateProviderLayer<T, R> {
    /// The state that the layer hands out.
    pub closed spec fn state(self) -> T {
        self.state
    }

    /// Creates a new ClonedStateProviderLayer with a clonable T
    pub fn new(state: T) -> (layer: Self) where T: Clone
        ensures
            layer.state() == state,
    {
        Self { state, _inner_request: PhantomData }
    }

    /// Wraps `inner`, giving it a clone of the state.
    pub fn layer<S>(&self, inner: S) -> (service: CloneStateProviderService<T, S, R>) where T: Clone
        ensures
            service.inner() == inner,
            cloned(self.state(), service.state()),
    {
        CloneStateProviderService { state: self.state.clone(), inner, _inner_request: PhantomData }
    }
}

impl<T, R> ClonedStateProviderLayer<Arc<T>, R> {
    /// Creates a new ClonedStateProviderLayer with a T that may or may not be
    /// Clone, by wrapping it in an Arc first. This makes it relatively cheap
    /// to clone, at the cost of only giving shared access to the T.
    pub fn with_arc(state: T) -> (layer: Self)
        ensures
            *layer.state() == state,
    {
        Self { state: Arc::new(state), _inner_request: PhantomData }
    }
}

impl<T, S, R> CloneStateProviderService<T, S, R> {
    /// The state that goes out with every request.
    pub closed spec fn state(self) -> T {
        self.state
    }

    /// The wrapped service.
    pub closed spec fn inner(self) -> S {
        self.inner
    }

    /// The wrapped service, to be polled and called.
    pub fn inner_mut(&mut self) -> (inner: &mut S)
        ensures
            *inner == old(self).inner(),
            final(self).inner() == *final(inner),
            final(self).state() == old(self).state(),
    {
        &mut self.inner
    }

    /// The request that goes to the inner service for `req`: a clone of the
    /// state, and `req` itself.
    pub fn call(&self, req: R) -> (inner_request: (T, R)) where T: Clone
        ensures
            cloned(self.state(), inner_request.0),
            inner_request.1 == req,
    {
        (self.state.clone(), req)
    }
}

} // verus!
