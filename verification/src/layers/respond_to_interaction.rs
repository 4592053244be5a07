//! Answers an interaction as quickly as possible: a ping with a pong,
//! anything else by queueing it and promising an answer for later.

use crate::payloads::discord_server_action::DiscordServerAction;
use twilight_model::application::interaction::Interaction;
use vstd::prelude::*;

verus! {

/// The type of an interaction.
#[derive(Debug, Clone, Copy, PartialEq, Eq, Structural)]
pub enum InteractionKind {
    Ping,
    ApplicationCommand,
    MessageComponent,
    ApplicationCommandAutocomplete,
    ModalSubmit,
    /// A type that Discord added later.
    Other,
}

/// What Discord is told at once, with status 200.
#[derive(Debug, Clone, Copy, PartialEq, Eq, Structural)]
pub enum InteractionReply {
    /// The response to a PING request.
    Pong,
    /// A response telling Discord that we will respond to this interaction
    /// later.
    Defer,
}

/// An error attempting to respond to an Interaction.
#[derive(Debug)]
pub enum InteractionResponseError<Q> {
    /// Could not serialize the JSON response.
    SerializationError(serde_json::Error),
    /// Could not queue
    QueueServiceError(Q),
}

/// What is done about an interaction.
pub enum Respond {
    /// Answer at once; nothing is queued.
    Reply(InteractionReply),
    /// Put this action on the queue; [`queued`] says what to answer then.
    Queue(DiscordServerAction),
}

/// The type of `interaction`, as its `kind` field gives it.
pub uninterp spec fn kind_of(interaction: Interaction) -> InteractionKind;

/// The `kind` field of an `Interaction`, which tells the types of
/// interaction apart. A type that this library does not know is `Other`.
#[verifier::external_body]
pub(crate) fn interaction_kind(interaction: &Interaction) -> (kind: InteractionKind)
    ensures
        kind == kind_of(*interaction),
{
    match interaction.kind {
        twilight_model::application::interaction::InteractionType::Ping => InteractionKind::Ping,
        twilight_model::application::interaction::InteractionType::ApplicationCommand => InteractionKind::ApplicationCommand,
        twilight_model::application::interaction::InteractionType::MessageComponent => InteractionKind::MessageComponent,
        twilight_model::application::interaction::InteractionType::ApplicationCommandAutocomplete => InteractionKind::ApplicationCommandAutocomplete,
        twilight_model::application::interaction::InteractionType::ModalSubmit => InteractionKind::ModalSubmit,
        _ => InteractionKind::Other,
    }
}

/// What is done about an interaction of type `kind`.
pub open spec fn respond_spec(kind: InteractionKind, interaction: Interaction) -> Respond {
    if kind == InteractionKind::Ping {
        Respond::Reply(InteractionReply::Pong)
    } else {
        Respond::Queue(DiscordServerAction::PostInteraction(interaction))
    }
}

/// What is done about an interaction whose type is already known: see
/// [`respond_to_interaction`].
pub fn respond_to_kind(kind: InteractionKind, interaction: Interaction) -> (respond: Respond)
    ensures
        respond == respond_spec(kind, interaction),
{
    match kind {
        InteractionKind::Ping => Respond::Reply(InteractionReply::Pong),
        _ => Respond::Queue(DiscordServerAction::PostInteraction(interaction)),
    }
}

/// Decides what is done about an interaction.
///
/// A ping is answered with a pong and is not queued. Every other interaction
/// is queued, whole, as a `PostInteraction`.
pub fn respond_to_interaction(interaction: Interaction) -> (respond: Respond)
    ensures
        respond == respond_spec(kind_of(interaction), interaction),
{
    let kind = interaction_kind(&interaction);
    respond_to_kind(kind, interaction)
}

/// Takes in the queue's answer for an interaction: once it is queued Discord
/// is told to wait, and a failure to queue is `QueueServiceError`.
pub fn queued<Q>(outcome: Result<(), Q>) -> (reply: Result<InteractionReply, InteractionResponseError<Q>>)
    ensures
        reply == match outcome {
            Ok(()) => Ok::<InteractionReply, InteractionResponseError<Q>>(InteractionReply::Defer),
            Err(error) => Err(InteractionResponseError::QueueServiceError(error)),
        },
{
    match outcome {
        Ok(()) => Ok(InteractionReply::Defer),
        Err(error) => Err(InteractionResponseError::QueueServiceError(error)),
    }
}

/// Takes in the encoding of the reply: a failure to encode is
/// `SerializationError`.
pub fn respond_to_interaction_layer_fn<J, Q>(encoded: Result<J, serde_json::Error>) -> (body: Result<
    J,
    InteractionResponseError<Q>,
>)
    ensures
        body == match encoded {
            Ok(json) => Ok::<J, InteractionResponseError<Q>>(json),
            Err(error) => Err(InteractionResponseError::SerializationError(error)),
        },
{
    match encoded {
        Ok(json) => Ok(json),
        Err(error) => Err(InteractionResponseError::SerializationError(error)),
    }
}

} // verus!
