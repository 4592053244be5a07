//! The defined actions that can be made to the Discord API.

use twilight_model::channel::message::Embed;
use twilight_model::id::marker::{ChannelMarker, MessageMarker};
use twilight_model::id::Id;
use vstd::prelude::*;

verus! {

/// An action taken that affects the displayed messages in Discord.
/// Must be carefully throttled to avoid hitting Discord rate limits.
#[derive(Debug, Clone, PartialEq, Eq, Hash)]
pub enum DiscordClientAction {
    /// Creates a standalone message in a channel.
    CreateMessage(CreateMessage),
    /// Creates a message replying to another message in that same channel.
    CreateReply(CreateReply),
    /// Delete a message from a channel. Optionally, may include a reason, which
    /// will be stored in the audit logs for the server.
    DeleteMessage(DeleteMessage),
    /// Updates the initial response, changing it from the typing indicator to a
    /// proper message.
    UpdateInteractionResponse(UpdateInteractionResponse),
    /// Updates an existing message. If the message is a reply, will not change
    /// the referenced post.
    UpdateMessage(UpdateMessage),
}

/// Creates a standalone message in a channel.
#[derive(Debug, Clone, PartialEq, Eq, Hash)]
pub struct CreateMessage {
    /// The Id of the channel to send the message in.
    pub channel_id: Id<ChannelMarker>,
    /// The payload of the message.
    pub message: MessagePayload,
}

/// Creates a message replying to another message in that same channel.
#[derive(Debug, Clone, PartialEq, Eq, Hash)]
pub struct CreateReply {
    /// The location of the message to be replied to.
    pub message_location: MessageLocation,
    /// The reply message.
    pub message: MessagePayload,
}

/// Delete a message from a channel. Optionally, may include a reason, which
/// will be stored in the audit logs for the server.
#[derive(Debug, Clone, PartialEq, Eq, Hash)]
pub struct DeleteMessage {
    /// The location of the message to be deleted.
    pub message_location: MessageLocation,
    /// A reason for why the post is deleted. This is not displayed openly
    /// but is accessible in the guild audit logs.
    pub reason: Option<String>,
}

/// The location of a message within Discord.
#[derive(Debug, Clone, Copy, PartialEq, Eq, Hash)]
pub struct MessageLocation {
    /// The channel the message was sent in (may be a DM channel).
    pub channel_id: Id<ChannelMarker>,
    /// The message itself.
    pub message_id: Id<MessageMarker>,
}

/// The contents of a message to be posted on Discord.
#[derive(Debug, Clone, PartialEq, Eq, Hash)]
pub enum MessagePayload {
    /// A simple text message.
    Text(String),
    /// An Embed, used for Posts.
    Embed(Embed),
    /// An Embed with some extra text outside the Embed frame.
    TextAndEmbed {
        /// The text outside the embed frame.
        text: String,
        /// The embed.
        embed: Embed,
    },
}

/// Updates the initial response, changing it from the typing indicator to a
/// proper message.
#[derive(Debug, Clone, PartialEq, Eq, Hash)]
pub struct UpdateInteractionResponse {
    /// The token for the interaction to respond to.
    pub interaction_token: String,
    /// The message to use as a response.
    pub message: MessagePayload,
}

/// Updates an existing message. If the message is a reply, will not change
/// the referenced post.
#[derive(Debug, Clone, PartialEq, Eq, Hash)]
pub struct UpdateMessage {
    /// The location of the message to be updated.
    pub message_location: MessageLocation,
    /// The new message.
    pub message: MessagePayload,
}

/// The payload made of an embed and, where there is one, some text outside
/// the embed frame.
pub open spec fn embed_payload(embed: Embed, text: Option<String>) -> MessagePayload {
    match text {
        Some(text) => MessagePayload::TextAndEmbed { text, embed },
        None => MessagePayload::Embed(embed),
    }
}

impl MessagePayload {
    /// The text of the message, if it has any.
    pub open spec fn text_spec(self) -> Option<String> {
        match self {
            MessagePayload::Text(text) => Some(text),
            MessagePayload::Embed(_) => None,
            MessagePayload::TextAndEmbed { text, .. } => Some(text),
        }
    }

    /// The embed of the message, if it has one.
    pub open spec fn embed_spec(self) -> Option<Embed> {
        match self {
            MessagePayload::Text(_) => None,
            MessagePayload::Embed(embed) => Some(embed),
            MessagePayload::TextAndEmbed { embed, .. } => Some(embed),
        }
    }

    /// The text of the message, if it has any.
    pub fn text(&self) -> (text: Option<&String>)
        ensures
            match text {
                Some(text) => self.text_spec() == Some(*text),
                None => self.text_spec() is None,
            },
    {
        match self {
            MessagePayload::Text(text) => Some(text),
            MessagePayload::Embed(_) => None,
            MessagePayload::TextAndEmbed { text, .. } => Some(text),
        }
    }

    /// The embed of the message, if it has one.
    pub fn embed(&self) -> (embed: Option<&Embed>)
        ensures
            match embed {
                Some(embed) => self.embed_spec() == Some(*embed),
                None => self.embed_spec() is None,
            },
    {
        match self {
            MessagePayload::Text(_) => None,
            MessagePayload::Embed(embed) => Some(embed),
            MessagePayload::TextAndEmbed { embed, .. } => Some(embed),
        }
    }

    /// The payload made of an embed and, where there is one, some text
    /// outside the embed frame.
    pub fn with_embed(embed: Embed, text: Option<String>) -> (payload: Self)
        ensures
            payload == embed_payload(embed, text),
    {
        match text {
            Some(text) => MessagePayload::TextAndEmbed { text, embed },
            None => MessagePayload::Embed(embed),
        }
    }
}

impl DiscordClientAction {
    /// Creates a standalone text message in a channel.
    pub fn create_text_message(channel_id: Id<ChannelMarker>, text: String) -> (action: Self)
        ensures
            action == DiscordClientAction::CreateMessage(
                CreateMessage { channel_id, message: MessagePayload::Text(text) },
            ),
    {
        DiscordClientAction::CreateMessage(
            CreateMessage { channel_id, message: MessagePayload::Text(text) },
        )
    }

    /// Creates a standalone embed message in a channel, optionally with some
    /// text outside the embed frame.
    pub fn create_embed_message(channel_id: Id<ChannelMarker>, embed: Embed, text: Option<String>) -> (action:
        Self)
        ensures
            action == DiscordClientAction::CreateMessage(
                CreateMessage { channel_id, message: embed_payload(embed, text) },
            ),
    {
        DiscordClientAction::CreateMessage(
            CreateMessage { channel_id, message: MessagePayload::with_embed(embed, text) },
        )
    }

    /// Replies to a message with text.
    pub fn create_text_reply(
        channel_id: Id<ChannelMarker>,
        replying_to: Id<MessageMarker>,
        text: String,
    ) -> (action: Self)
        ensures
            action == DiscordClientAction::CreateReply(
                CreateReply {
                    message_location: MessageLocation { channel_id, message_id: replying_to },
                    message: MessagePayload::Text(text),
                },
            ),
    {
        DiscordClientAction::CreateReply(
            CreateReply {
                message_location: MessageLocation { channel_id, message_id: replying_to },
                message: MessagePayload::Text(text),
            },
        )
    }

    /// Replies to a message with an embed and, optionally, some text outside
    /// the embed frame.
    pub fn create_embed_reply(
        channel_id: Id<ChannelMarker>,
        replying_to: Id<MessageMarker>,
        embed: Embed,
        text: Option<String>,
    ) -> (action: Self)
        ensures
            action == DiscordClientAction::CreateReply(
                CreateReply {
                    message_location: MessageLocation { channel_id, message_id: replying_to },
                    message: embed_payload(embed, text),
                },
            ),
    {
        DiscordClientAction::CreateReply(
            CreateReply {
                message_location: MessageLocation { channel_id, message_id: replying_to },
                message: MessagePayload::with_embed(embed, text),
            },
        )
    }

    /// Deletes a message and, optionally, puts a reason into the audit log.
    pub fn delete_message(
        channel_id: Id<ChannelMarker>,
        message_id: Id<MessageMarker>,
        reason: Option<String>,
    ) -> (action: Self)
        ensures
            action == DiscordClientAction::DeleteMessage(
                DeleteMessage { message_location: MessageLocation { channel_id, message_id }, reason },
            ),
    {
        DiscordClientAction::DeleteMessage(
            DeleteMessage { message_location: MessageLocation { channel_id, message_id }, reason },
        )
    }

    /// Reponds to an interaction with a text message.
    pub fn interaction_response_text(interaction_token: String, text: String) -> (action: Self)
        ensures
            action == DiscordClientAction::UpdateInteractionResponse(
                UpdateInteractionResponse { interaction_token, message: MessagePayload::Text(text) },
            ),
    {
        DiscordClientAction::UpdateInteractionResponse(
            UpdateInteractionResponse { interaction_token, message: MessagePayload::Text(text) },
        )
    }

    /// Responds to an interaction with an embed and, optionally, some text
    /// outside the embed frame.
    pub fn interaction_response_embed(
        interaction_token: String,
        embed: Embed,
        text: Option<String>,
    ) -> (action: Self)
        ensures
            action == DiscordClientAction::UpdateInteractionResponse(
                UpdateInteractionResponse { interaction_token, message: embed_payload(embed, text) },
            ),
    {
        DiscordClientAction::UpdateInteractionResponse(
            UpdateInteractionResponse {
                interaction_token,
                message: MessagePayload::with_embed(embed, text),
            },
        )
    }

    /// Updates an existing message's body, overwriting it with static text.
    pub fn update_text_message(
        channel_id: Id<ChannelMarker>,
        message_id: Id<MessageMarker>,
        new_text: String,
    ) -> (action: Self)
        ensures
            action == DiscordClientAction::UpdateMessage(
                UpdateMessage {
                    message_location: MessageLocation { channel_id, message_id },
                    message: MessagePayload::Text(new_text),
                },
            ),
    {
        DiscordClientAction::UpdateMessage(
            UpdateMessage {
                message_location: MessageLocation { channel_id, message_id },
                message: MessagePayload::Text(new_text),
            },
        )
    }

    /// Updates an existing message's body, overwriting it with an embed and,
    /// optionally, some text outside the embed frame.
    pub fn update_embed_message(
        channel_id: Id<ChannelMarker>,
        message_id: Id<MessageMarker>,
        embed: Embed,
        text: Option<String>,
    ) -> (action: Self)
        ensures
            action == DiscordClientAction::UpdateMessage(
                UpdateMessage {
                    message_location: MessageLocation { channel_id, message_id },
                    message: embed_payload(embed, text),
                },
            ),
    {
        DiscordClientAction::UpdateMessage(
            UpdateMessage {
                message_location: MessageLocation { channel_id, message_id },
                message: MessagePayload::with_embed(embed, text),
            },
        )
    }
}

} // verus!
