//! A layer that answers a missing request with the default response.

use vstd::prelude::*;

verus! {

/// A layer which turns a Service that takes a Request and returns a
/// Default-able Response into a service which takes an Option and
/// returns the default if the request is None.
pub struct DefaultIfNoneLayer;

/// A service that returns a default response if passed None as
/// the request, or runs an inner service on the Some value.
pub struct DefaultIfNoneService<S> {
    inner: S,
}

/// What becomes of a request that may be missing.
pub enum DefaultOr<Request, Response> {
    /// The request is there: it goes to the inner service.
    Forward(Request),
    /// The request is missing: this is the answer, and the inner service is
    /// not called.
    Reply(Response),
}

impl DefaultIfNoneLayer {
    /// Wraps `inner`.
    pub fn layer<S>(&self, inner: S) -> (service: DefaultIfNoneService<S>)
        ensures
            service.inner() == inner,
    {
        DefaultIfNoneService { inner }
    }
}

impl<S> DefaultIfNoneService<S> {
    /// The wrapped service.
    pub closed spec fn inner(self) -> S {
        self.inner
    }

    /// The wrapped service, to be polled and called.
    pub fn inner_mut(&mut self) -> (inner: &mut S)
        ensures
            *inner == old(self).inner(),
            final(self).inner() == *final(inner),
    {
        &mut self.inner
    }

    /// Decides what becomes of `req`: a request that is there goes to the
    /// inner service as it is, a missing one is answered with the default
    /// response.
    pub fn call<Request, Response: Default>(req: Option<Request>) -> (routed: DefaultOr<
        Request,
        Response,
    >)
        ensures
            match req {
                Some(request) => routed == DefaultOr::<Request, Response>::Forward(request),
                None => routed matches DefaultOr::Reply(response) && call_ensures(
                    Response::default,
                    (),
                    response,
                ),
            },
    {
        match req {
            Some(request) => DefaultOr::Forward(request),
            None => DefaultOr::Reply(Response::default()),
        }
    }
}

} // verus!
