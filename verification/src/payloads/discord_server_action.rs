//! What Discord's server does that may need an answer.

use crate::services::discord_client::client_action_response::ClientActionResponse;
use twilight_model::application::interaction::Interaction;
use vstd::prelude::*;
use vstd::std_specs::convert::FromSpecImpl;

verus! {

/// Actions that Discord's server might take which may require processing by Eris.
pub enum DiscordServerAction {
    /// Discord made a POST request to our Interactions endpoint.
    PostInteraction(Interaction),
    /// Discord responded to an action taken by the Discord client.
    DiscordClientActionResponse(ClientActionResponse),
}

impl From<Interaction> for DiscordServerAction {
    fn from(value: Interaction) -> (action: Self) {
        Self::PostInteraction(value)
    }
}

impl FromSpecImpl<Interaction> for DiscordServerAction {
    open spec fn obeys_from_spec() -> bool {
        true
    }

    open spec fn from_spec(value: Interaction) -> Self {
        DiscordServerAction::PostInteraction(value)
    }
}

impl From<ClientActionResponse> for DiscordServerAction {
    fn from(value: ClientActionResponse) -> (action: Self) {
        Self::DiscordClientActionResponse(value)
    }
}

impl FromSpecImpl<ClientActionResponse> for DiscordServerAction {
    open spec fn obeys_from_spec() -> bool {
        true
    }

    open spec fn from_spec(value: ClientActionResponse) -> Self {
        DiscordServerAction::DiscordClientActionResponse(value)
    }
}

} // verus!
