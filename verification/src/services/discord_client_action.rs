//! Sends a [`DiscordClientAction`](crate::payloads::DiscordClientAction) to
//! Discord and queues what comes back, where anything does.

use crate::payloads::discord_server_action::DiscordServerAction;
use crate::services::discord_client::client_action_response::ClientActionResponse;
use crate::services::twilight_service::{TwilightServiceError, TwilightValidationError};
use vstd::prelude::*;

verus! {

/// An error that might be produced during the processing of a
/// DiscordClientAction. `Q` is the error of the queue service.
#[derive(Debug)]
pub enum DiscordClientActionServiceError<Q> {
    /// An error from the Twilight Discord client
    TwilightServiceError(TwilightServiceError),
    /// An error from the provided server action queue
    DiscordServerActionQueueError(Q),
}

/// What is done once Discord has answered an action.
pub enum AfterAction<Q> {
    /// Discord sent something back: put it on the queue of server actions.
    Queue(DiscordServerAction),
    /// Nothing is to be queued: this is the outcome.
    Done(Result<(), DiscordClientActionServiceError<Q>>),
}

/// What is done about Discord's answer to an action.
pub open spec fn after_action<Q>(
    answer: Result<Option<ClientActionResponse>, TwilightServiceError>,
) -> AfterAction<Q> {
    match answer {
        Ok(Some(discord_response)) => AfterAction::Queue(
            DiscordServerAction::DiscordClientActionResponse(discord_response),
        ),
        Ok(None) => AfterAction::Done(Ok(())),
        Err(error) => AfterAction::Done(
            Err(DiscordClientActionServiceError::TwilightServiceError(error)),
        ),
    }
}

/// The line that is logged for `error`, without the error's own words.
pub open spec fn log_line_spec<Q>(error: DiscordClientActionServiceError<Q>) -> &'static str {
    match error {
        DiscordClientActionServiceError::TwilightServiceError(
            TwilightServiceError::TwilightValidationError(
                TwilightValidationError::MessageValidationError(_),
            ),
        ) => "twilight message validation error",
        DiscordClientActionServiceError::TwilightServiceError(
            TwilightServiceError::TwilightValidationError(TwilightValidationError::ValidationError(_)),
        ) => "twilight validation error",
        DiscordClientActionServiceError::TwilightServiceError(
            TwilightServiceError::TwilightClientError(_),
        ) => "twilight client error",
        DiscordClientActionServiceError::TwilightServiceError(
            TwilightServiceError::DeserializationBodyError(_),
        ) => "error deserializing Discord response",
        DiscordClientActionServiceError::DiscordServerActionQueueError(_) => "server action queue failed",
    }
}

/// Takes in Discord's answer to an action.
///
/// A response that means something is queued as a server action. An action
/// without such a response is done. An error is the outcome.
pub fn answered<Q>(answer: Result<Option<ClientActionResponse>, TwilightServiceError>) -> (next:
    AfterAction<Q>)
    ensures
        next == after_action::<Q>(answer),
{
    match answer {
        Ok(Some(discord_response)) => AfterAction::Queue(
            DiscordServerAction::DiscordClientActionResponse(discord_response),
        ),
        Ok(None) => AfterAction::Done(Ok(())),
        Err(error) => AfterAction::Done(
            Err(DiscordClientActionServiceError::TwilightServiceError(error)),
        ),
    }
}

/// Takes in the queue's answer, which is also its failure to get ready: an
/// error is `DiscordServerActionQueueError`.
pub fn queued<Q>(outcome: Result<(), Q>) -> (done: Result<(), DiscordClientActionServiceError<Q>>)
    ensures
        done == match outcome {
            Ok(()) => Ok::<(), DiscordClientActionServiceError<Q>>(()),
            Err(error) => Err(DiscordClientActionServiceError::DiscordServerActionQueueError(error)),
        },
{
    match outcome {
        Ok(()) => Ok(()),
        Err(error) => Err(DiscordClientActionServiceError::DiscordServerActionQueueError(error)),
    }
}

/// The line that is logged for `error`, without the error's own words.
pub fn log_line<Q>(error: &DiscordClientActionServiceError<Q>) -> (line: &'static str)
    ensures
        line == log_line_spec(*error),
{
    match error {
        DiscordClientActionServiceError::TwilightServiceError(error) => match error {
            TwilightServiceError::TwilightValidationError(error) => match error {
                TwilightValidationError::MessageValidationError(_) => {
                    "twilight message validation error"
                },
                TwilightValidationError::ValidationError(_) => "twilight validation error",
            },
            TwilightServiceError::TwilightClientError(_) => "twilight client error",
            TwilightServiceError::DeserializationBodyError(_) => {
                "error deserializing Discord response"
            },
        },
        DiscordClientActionServiceError::DiscordServerActionQueueError(_) => {
            "server action queue failed"
        },
    }
}

/// Ends the processing of an action: the service never fails. An error is
/// for the log, with the line that is returned for it, and goes no further.
pub fn discord_client_action_service<Q>(outcome: Result<(), DiscordClientActionServiceError<Q>>) -> (end: (
    Result<(), DiscordClientActionServiceError<Q>>,
    Option<&'static str>,
))
    ensures
        end.0 is Ok,
        end.1 == match outcome {
            Ok(()) => None::<&'static str>,
            Err(error) => Some(log_line_spec(error)),
        },
{
    match outcome {
        Ok(()) => (Ok(()), None),
        Err(error) => {
            let line = log_line(&error);
            (Ok(()), Some(line))
        },
    }
}

} // verus!
