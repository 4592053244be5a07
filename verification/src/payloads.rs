//! Payloads for queue services.

pub mod discord_server_action;

pub use crate::services::discord_client::client_action_response::ClientActionResponse as DiscordClientActionResponse;
pub use crate::services::discord_client::client_actions::{
    CreateMessage, CreateReply, DeleteMessage, DiscordClientAction, MessageLocation, MessagePayload,
    UpdateInteractionResponse, UpdateMessage,
};
pub use discord_server_action::DiscordServerAction;
