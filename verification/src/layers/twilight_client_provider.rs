//! A layer that hands the shared Discord client to another service with
//! every request.

use std::sync::Arc;
use twilight_model::id::marker::ApplicationMarker;
use twilight_model::id::Id;
use vstd::prelude::*;

verus! {

/// `twilight_http::Client`: the client of Discord's REST API.
#[verifier::external_type_specification]
#[verifier::external_body]
pub struct ExClient(twilight_http::Client);

/// The shared state required to make requests to Discord using
/// [`twilight_http::Client`].
#[derive(Debug)]
pub struct TwilightClientState {
    /// The client itself
    pub twilight_client: twilight_http::Client,
    /// The application Id. Used for interaction endpoints.
    pub application_id: Id<ApplicationMarker>,
}

/// A layer which provides [TwilightClientState] to a service
/// that takes ([Arc]<[TwilightClientState]>, R) as its Request, converting it
/// into a service that only takes R as its Request.
pub struct TwilightClientProviderLayer {
    state: Arc<TwilightClientState>,
}

/// A service that has been provided with a [TwilightClientState]
/// (wrapped in an [Arc] for easy cloning.
pub struct TwilightClientService<S> {
    state: Arc<TwilightClientState>,
    inner: S,
}

impl TwilightClientProviderLayer {
    /// The state that the layer hands out.
    pub closed spec fn state(self) -> TwilightClientState {
        *self.state
    }

    /// Create a new [TwilightClientProviderLayer]
    pub fn new(twilight_client: twilight_http::Client, application_id: Id<ApplicationMarker>) -> (layer:
        Self)
        ensures
            layer.state() == (TwilightClientState { twilight_client, application_id }),
    {
        Self { state: Arc::new(TwilightClientState { twilight_client, application_id }) }
    }

    /// Wraps `inner`, giving it the shared state.
    pub fn layer<S>(&self, inner: S) -> (service: TwilightClientService<S>)
        ensures
            service.inner() == inner,
            service.state() == self.state(),
    {
        TwilightClientService { state: self.state.clone(), inner }
    }
}

impl<S> TwilightClientService<S> {
    /// The state that goes out with every request.
    pub closed spec fn state(self) -> TwilightClientState {
        *self.state
    }

    /// The wrapped service.
    pub closed spec fn inner(self) -> S {
        self.inner
    }

    /// The wrapped service, to be polled and called.
    pub fn inner_mut(&mut self) -> (inner: &mut S)
        ensures
            *inner == old(self).inner(),
            final(self).inner() == *final(inner),
            final(self).state() == old(self).state(),
    {
        &mut self.inner
    }

    /// The request that goes to the inner service for `req`: the shared
    /// state, and `req` itself.
    pub fn call<Request>(&self, req: Request) -> (inner_request: (Arc<TwilightClientState>, Request))
        ensures
            *inner_request.0 == self.state(),
            inner_request.1 == req,
    {
        (self.state.clone(), req)
    }
}

} // verus!
