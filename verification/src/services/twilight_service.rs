//! Turns a [`DiscordClientAction`] into a call to the Discord REST API, and
//! decides which failures of such a call may be tried again.
//!
//! The client itself is not here. Its errors arrive as a
//! [`TwilightServiceError`], which holds what the decisions read.

use crate::services::discord_client::client_actions::DiscordClientAction;
use std::sync::Arc;
use twilight_model::channel::message::Embed;
use twilight_model::id::marker::{ChannelMarker, MessageMarker};
use twilight_model::id::Id;
use vstd::prelude::*;

verus! {

/// A request was rejected before anything was sent to Discord.
#[derive(Debug, Clone)]
pub enum TwilightValidationError {
    /// The message content or its embeds are not acceptable.
    MessageValidationError(String),
    /// Another part of the request, such as an audit reason, is not
    /// acceptable.
    ValidationError(String),
}

/// What went wrong with a request that the HTTP client tried to send.
#[derive(Debug, Clone, Copy, PartialEq, Eq, Structural)]
pub enum ClientErrorKind {
    BuildingRequest,
    ChunkingResponse,
    CreatingHeader,
    Json,
    Parsing,
    RatelimiterTicket,
    RequestCanceled,
    RequestError,
    /// No response arrived in time.
    RequestTimedOut,
    /// Discord answered with an error status.
    Response { status: u16 },
    /// Discord reported that the API is unavailable.
    ServiceUnavailable,
    Unauthorized,
}

/// A failure of the HTTP client: its kind, and what it said.
#[derive(Debug, Clone)]
pub struct TwilightClientError {
    pub kind: ClientErrorKind,
    pub message: String,
}

/// Errors that can occur when constructing, sending, or receiving a response
/// to a Discord API call.
#[derive(Debug, Clone)]
pub enum TwilightServiceError {
    /// An error occurred during message validation, HTTP request not sent
    TwilightValidationError(TwilightValidationError),
    /// The HTTP request was attempted but did not succeed, either due to a
    /// network failure, or because Discord returned an error status code
    TwilightClientError(TwilightClientError),
    /// The HTTP request succeeded and a response was provided, but an error
    /// occurred while trying to deserialize the response from Discord.
    DeserializationBodyError(String),
}

/// Whether a failed action is attempted again.
#[derive(Debug, Clone, Copy, PartialEq, Eq, Structural)]
pub enum RetryDecision {
    Retry,
    Abort,
}

/// Whether `status` is a server error: a code in `[500, 600)`.
pub open spec fn is_server_error_spec(status: u16) -> bool {
    500 <= status < 600
}

/// Whether `status` is a server error: a code in `[500, 600)`.
#[verifier::when_used_as_spec(is_server_error_spec)]
pub fn is_server_error(status: u16) -> (server_error: bool)
    ensures
        server_error == is_server_error_spec(status),
{
    status >= 500 && status < 600
}

/// The decision for each kind of failure of the HTTP client: a server error,
/// an unavailable service and a request that timed out are tried again,
/// nothing else is.
pub open spec fn classify_kind_spec(kind: ClientErrorKind) -> RetryDecision {
    match kind {
        ClientErrorKind::Response { status } => if is_server_error_spec(status) {
            RetryDecision::Retry
        } else {
            RetryDecision::Abort
        },
        ClientErrorKind::ServiceUnavailable => RetryDecision::Retry,
        ClientErrorKind::RequestTimedOut => RetryDecision::Retry,
        _ => RetryDecision::Abort,
    }
}

/// The decision for each error.
pub open spec fn classify_spec(error: TwilightServiceError) -> RetryDecision {
    match error {
        TwilightServiceError::TwilightValidationError(_) => RetryDecision::Abort,
        TwilightServiceError::TwilightClientError(client) => classify_kind_spec(client.kind),
        TwilightServiceError::DeserializationBodyError(_) => RetryDecision::Abort,
    }
}

/// Decides whether an action that failed with `error` may be attempted again.
///
/// An error of validation came before anything was sent: trying again would
/// fail the same way. A status in `[500, 600)`, an unavailable service or a
/// request that timed out is the server's or the network's failure, and the
/// action is tried again. Any other failure of the client is not. A
/// response that could not be decoded came with a success status, so the
/// action may have been carried out, and it is not repeated.
pub fn classify(error: &TwilightServiceError) -> (decision: RetryDecision)
    ensures
        decision == classify_spec(*error),
{
    match error {
        TwilightServiceError::TwilightValidationError(_) => RetryDecision::Abort,
        TwilightServiceError::TwilightClientError(client) => match client.kind {
            ClientErrorKind::Response { status } => {
                if is_server_error(status) {
                    RetryDecision::Retry
                } else {
                    RetryDecision::Abort
                }
            },
            ClientErrorKind::ServiceUnavailable => RetryDecision::Retry,
            ClientErrorKind::RequestTimedOut => RetryDecision::Retry,
            _ => RetryDecision::Abort,
        },
        TwilightServiceError::DeserializationBodyError(_) => RetryDecision::Abort,
    }
}

/// Whether the attempt that ended in `result` is followed by another.
pub open spec fn retries<Res>(result: Result<Res, TwilightServiceError>) -> bool {
    match result {
        Ok(_) => false,
        Err(error) => classify_spec(error) == RetryDecision::Retry,
    }
}

/// How many attempts are made when the attempts end as `outcomes` say, one
/// after the other, and at most `bound` attempts are allowed: one more after
/// each attempt that is to be tried again.
pub open spec fn attempts_spec<Res>(outcomes: Seq<Result<Res, TwilightServiceError>>, bound: nat) -> nat
    decreases outcomes.len(),
{
    if outcomes.len() == 0 || bound == 0 {
        0
    } else if retries(outcomes[0]) {
        1 + attempts_spec(outcomes.drop_first(), (bound - 1) as nat)
    } else {
        1
    }
}

/// The policy of the Discord client service: an action is retried on a
/// failure of the server or the network, and on nothing else.
///
/// The policy counts no attempts and waits between none. A bound on either
/// is for the caller to set.
#[derive(Debug, Clone, Copy)]
pub struct RetryOnServerError;

impl RetryOnServerError {
    /// The policy for the next attempt, where there is to be one; `None`
    /// where the result stands.
    ///
    /// A success stands. An error stands unless [`classify`] says `Retry`.
    pub fn retry<Req, Res>(&self, _req: &Req, result: Result<&Res, &TwilightServiceError>) -> (next:
        Option<RetryOnServerError>)
        ensures
            next is Some <==> (result matches Err(error) && classify_spec(*error)
                == RetryDecision::Retry),
    {
        match result {
            Ok(_) => None,
            Err(error) => match classify(error) {
                RetryDecision::Retry => Some(RetryOnServerError),
                RetryDecision::Abort => None,
            },
        }
    }

    /// The request for the next attempt: the very same payload.
    pub fn clone_request<Req>(&self, req: &Arc<Req>) -> (copy: Option<Arc<Req>>)
        ensures
            copy == Some(*req),
    {
        Some(req.clone())
    }

    /// How many attempts a caller makes that follows this policy, allows
    /// itself `bound` attempts at most, and sees its attempts end as
    /// `outcomes` say.
    pub fn attempts<Res>(&self, outcomes: &Vec<Result<Res, TwilightServiceError>>, bound: usize) -> (made:
        usize)
        ensures
            made == attempts_spec(outcomes@, bound as nat),
    {
        let mut made: usize = 0;
        assert(outcomes@.skip(0) =~= outcomes@);
        while made < outcomes.len() && made < bound
            invariant
                made <= outcomes.len(),
                made <= bound,
                attempts_spec(outcomes@, bound as nat) == made + attempts_spec(
                    outcomes@.skip(made as int),
                    (bound - made) as nat,
                ),
            decreases outcomes.len() - made,
        {
            let ghost rest = outcomes@.skip(made as int);
            assert(rest.drop_first() =~= outcomes@.skip(made + 1));
            let again = match &outcomes[made] {
                Ok(_) => false,
                Err(error) => match classify(error) {
                    RetryDecision::Retry => true,
                    RetryDecision::Abort => false,
                },
            };
            made += 1;
            if !again {
                return made;
            }
        }
        made
    }
}

/// A pre-flight validation error is never retried: the first attempt is the
/// only one.
pub proof fn lemma_validation_error_is_not_retried<Res>(
    outcomes: Seq<Result<Res, TwilightServiceError>>,
    bound: nat,
)
    requires
        outcomes.len() > 0,
        bound > 0,
        outcomes[0] matches Err(TwilightServiceError::TwilightValidationError(_)),
    ensures
        attempts_spec(outcomes, bound) == 1,
{
}

/// A response whose body could not be decoded is never retried: the first
/// attempt is the only one.
pub proof fn lemma_decoding_error_is_not_retried<Res>(
    outcomes: Seq<Result<Res, TwilightServiceError>>,
    bound: nat,
)
    requires
        outcomes.len() > 0,
        bound > 0,
        outcomes[0] matches Err(TwilightServiceError::DeserializationBodyError(_)),
    ensures
        attempts_spec(outcomes, bound) == 1,
{
}

/// An unavailable service, a timeout or a server error is retried wherever
/// the caller's bound leaves room: as long as the attempts go on failing so,
/// every allowed attempt is made.
pub proof fn lemma_server_errors_are_retried<Res>(
    outcomes: Seq<Result<Res, TwilightServiceError>>,
    bound: nat,
)
    requires
        bound <= outcomes.len(),
        forall|i: int|
            0 <= i < bound ==> (#[trigger] outcomes[i] matches Err(
                TwilightServiceError::TwilightClientError(client),
            ) && (client.kind is ServiceUnavailable || client.kind is RequestTimedOut || (client.kind
                matches ClientErrorKind::Response { status } && 500 <= status < 600))),
    ensures
        attempts_spec(outcomes, bound) == bound,
    decreases bound,
{
    if bound > 0 {
        let rest = outcomes.drop_first();
        assert forall|i: int| 0 <= i < bound - 1 implies (#[trigger] rest[i] matches Err(
            TwilightServiceError::TwilightClientError(client),
        ) && (client.kind is ServiceUnavailable || client.kind is RequestTimedOut || (client.kind
            matches ClientErrorKind::Response { status } && 500 <= status < 600))) by {
        }
        lemma_server_errors_are_retried(rest, (bound - 1) as nat);
    }
}

/// The message that a reply answers.
#[derive(Debug, Clone, Copy)]
pub struct ReplyTo {
    pub message_id: Id<MessageMarker>,
    /// Whether the call fails where that message is gone.
    pub fail_if_not_exists: bool,
}

/// One call to the Discord REST API.
#[derive(Debug, Clone, Copy)]
pub enum ClientCall<'a> {
    /// Post a message; the message that was posted comes back.
    CreateMessage {
        channel_id: Id<ChannelMarker>,
        reply: Option<ReplyTo>,
        content: Option<&'a String>,
        embed: Option<&'a Embed>,
    },
    /// Delete a message; nothing comes back.
    DeleteMessage {
        channel_id: Id<ChannelMarker>,
        message_id: Id<MessageMarker>,
        reason: Option<&'a String>,
    },
    /// Replace the first response to an interaction; nothing comes back.
    UpdateInteractionResponse {
        interaction_token: &'a String,
        content: Option<&'a String>,
        embed: Option<&'a Embed>,
    },
    /// Replace a message; nothing comes back.
    UpdateMessage {
        channel_id: Id<ChannelMarker>,
        message_id: Id<MessageMarker>,
        content: Option<&'a String>,
        embed: Option<&'a Embed>,
    },
}

/// What `reference` refers to, if anything.
pub open spec fn referred<T>(reference: Option<&T>) -> Option<T> {
    match reference {
        Some(value) => Some(*value),
        None => None,
    }
}

impl<'a> ClientCall<'a> {
    /// Whether the call brings back the message that it posted.
    pub fn returns_message(&self) -> (expected: bool)
        ensures
            expected == (*self is CreateMessage),
    {
        match self {
            ClientCall::CreateMessage { .. } => true,
            _ => false,
        }
    }
}

/// Whether `call` is the call that carries out `action`.
pub open spec fn carries_out(call: ClientCall<'_>, action: DiscordClientAction) -> bool {
    match action {
        DiscordClientAction::CreateMessage(create) => {
            &&& call matches ClientCall::CreateMessage { channel_id, reply, content, embed }
            &&& channel_id == create.channel_id
            &&& reply is None
            &&& referred(content) == create.message.text_spec()
            &&& referred(embed) == create.message.embed_spec()
        },
        DiscordClientAction::CreateReply(create) => {
            &&& call matches ClientCall::CreateMessage { channel_id, reply, content, embed }
            &&& channel_id == create.message_location.channel_id
            &&& reply matches Some(reply_to)
            &&& reply_to.message_id == create.message_location.message_id
            &&& !reply_to.fail_if_not_exists
            &&& referred(content) == create.message.text_spec()
            &&& referred(embed) == create.message.embed_spec()
        },
        DiscordClientAction::DeleteMessage(delete) => {
            &&& call matches ClientCall::DeleteMessage { channel_id, message_id, reason }
            &&& channel_id == delete.message_location.channel_id
            &&& message_id == delete.message_location.message_id
            &&& referred(reason) == delete.reason
        },
        DiscordClientAction::UpdateInteractionResponse(update) => {
            &&& call matches ClientCall::UpdateInteractionResponse {
                interaction_token,
                content,
                embed,
            }
            &&& *interaction_token == update.interaction_token
            &&& referred(content) == update.message.text_spec()
            &&& referred(embed) == update.message.embed_spec()
        },
        DiscordClientAction::UpdateMessage(update) => {
            &&& call matches ClientCall::UpdateMessage { channel_id, message_id, content, embed }
            &&& channel_id == update.message_location.channel_id
            &&& message_id == update.message_location.message_id
            &&& referred(content) == update.message.text_spec()
            &&& referred(embed) == update.message.embed_spec()
        },
    }
}

/// The call to the Discord REST API that carries out `action`.
///
/// A message goes out with its text, its embed, or both. A reply is a message
/// with a reference to the one it answers, and is posted even where that one
/// is gone. A deletion takes its reason along where it has one.
pub fn plan(action: &DiscordClientAction) -> (call: ClientCall<'_>)
    ensures
        carries_out(call, *action),
{
    match action {
        DiscordClientAction::CreateMessage(create) => ClientCall::CreateMessage {
            channel_id: create.channel_id,
            reply: None,
            content: create.message.text(),
            embed: create.message.embed(),
        },
        DiscordClientAction::CreateReply(create) => ClientCall::CreateMessage {
            channel_id: create.message_location.channel_id,
            reply: Some(
                ReplyTo {
                    message_id: create.message_location.message_id,
                    fail_if_not_exists: false,
                },
            ),
            content: create.message.text(),
            embed: create.message.embed(),
        },
        DiscordClientAction::DeleteMessage(delete) => ClientCall::DeleteMessage {
            channel_id: delete.message_location.channel_id,
            message_id: delete.message_location.message_id,
            reason: delete.reason.as_ref(),
        },
        DiscordClientAction::UpdateInteractionResponse(update) => {
            ClientCall::UpdateInteractionResponse {
                interaction_token: &update.interaction_token,
                content: update.message.text(),
                embed: update.message.embed(),
            }
        },
        DiscordClientAction::UpdateMessage(update) => ClientCall::UpdateMessage {
            channel_id: update.message_location.channel_id,
            message_id: update.message_location.message_id,
            content: update.message.text(),
            embed: update.message.embed(),
        },
    }
}

} // verus!
