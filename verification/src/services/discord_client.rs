//! The Discord REST client as a service.

use std::sync::Arc;
use twilight_model::id::marker::ApplicationMarker;
use twilight_model::id::Id;
use vstd::prelude::*;

pub mod client_action_response;
pub mod client_actions;

pub use client_actions::DiscordClientAction;

verus! {

/// The trait bound for a DiscordClientService: a service that takes a
/// [`DiscordClientAction`] and answers with nothing.
pub trait DiscordClientService {

}

/// What a call to Discord needs besides the action: the client, and the id
/// of the application for calls about interactions.
#[derive(Debug)]
pub struct TwilightServiceState {
    pub twilight_client: twilight_http::Client,
    pub application_id: Id<ApplicationMarker>,
}

/// A layer which hands the [`TwilightServiceState`] to the service that
/// carries out the actions.
pub struct TwilightServiceStateLayer {
    state: Arc<TwilightServiceState>,
}

/// A service that has been provided with a [`TwilightServiceState`].
pub struct TwilightService<S> {
    state: Arc<TwilightServiceState>,
    inner: S,
}

impl TwilightServiceStateLayer {
    /// The state that the layer hands out.
    pub closed spec fn state(self) -> TwilightServiceState {
        *self.state
    }

    /// A layer around a client and the id of its application.
    pub fn new(twilight_client: twilight_http::Client, application_id: Id<ApplicationMarker>) -> (layer:
        Self)
        ensures
            layer.state() == (TwilightServiceState { twilight_client, application_id }),
    {
        Self { state: Arc::new(TwilightServiceState { twilight_client, application_id }) }
    }

    /// Wraps `inner`, giving it the shared state.
    pub fn layer<S>(&self, inner: S) -> (service: TwilightService<S>)
        ensures
            service.inner() == inner,
            service.state() == self.state(),
    {
        TwilightService { state: self.state.clone(), inner }
    }
}

impl<S> TwilightService<S> {
    /// The state that goes out with every request.
    pub closed spec fn state(self) -> TwilightServiceState {
        *self.state
    }

    /// The wrapped service.
    pub closed spec fn inner(self) -> S {
        self.inner
    }

    /// The wrapped service, to be polled and called.
    pub fn inner_mut(&mut self) -> (inner: &mut S)
        ensures
            *inner == old(self).inner(),
            final(self).inner() == *final(inner),
            final(self).state() == old(self).state(),
    {
        &mut self.inner
    }

    /// The request that goes to the inner service for `req`: the shared
    /// state, and `req` itself.
    pub fn call<Request>(&self, req: Request) -> (inner_request: (Arc<TwilightServiceState>, Request))
        ensures
            *inner_request.0 == self.state(),
            inner_request.1 == req,
    {
        (self.state.clone(), req)
    }
}

} // verus!
