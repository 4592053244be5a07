//! Answers an interaction through a queue that a
//! [`QueueProviderLayer`](crate::layers::queue_provider::QueueProviderLayer)
//! supplies.

use crate::layers::queue_provider::QueueProviderLayerError;
use crate::layers::respond_to_interaction::{
    respond_to_interaction, InteractionResponseError, Respond,
};
use twilight_model::application::interaction::Interaction;
use vstd::prelude::*;

verus! {

/// The error of the service for the error of its layers: an error of the
/// queue is `QueueServiceError` wherever it was met.
pub open spec fn flatten_spec<Q>(
    error: QueueProviderLayerError<Q, InteractionResponseError<Q>>,
) -> InteractionResponseError<Q> {
    match error {
        QueueProviderLayerError::QueueError(error) => InteractionResponseError::QueueServiceError(
            error,
        ),
        QueueProviderLayerError::InnerError(error) => error,
    }
}

/// Decides what is done about an interaction: a ping is answered with a
/// pong, every other interaction is queued.
pub fn response_to_interaction(interaction: Interaction) -> (respond: Respond)
    ensures
        respond == crate::layers::respond_to_interaction::respond_spec(
            crate::layers::respond_to_interaction::kind_of(interaction),
            interaction,
        ),
{
    respond_to_interaction(interaction)
}

/// The error of the service for the error of its layers: an error of the
/// queue is `QueueServiceError` whether the layer met it or the service
/// inside, and any other error of the service inside stays what it is.
pub fn interaction_response_service<Q>(
    error: QueueProviderLayerError<Q, InteractionResponseError<Q>>,
) -> (flat: InteractionResponseError<Q>)
    ensures
        flat == flatten_spec(error),
{
    match error {
        QueueProviderLayerError::QueueError(error) => InteractionResponseError::QueueServiceError(
            error,
        ),
        QueueProviderLayerError::InnerError(error) => error,
    }
}

} // verus!
