//! Services that talk to Discord or queue work for it.

pub mod discord_client;
pub mod discord_client_action;
pub mod discord_endpoint;
pub mod discord_endpoint_real;
pub mod discord_handler;
pub mod in_memory_queue;
pub mod interaction_response;
pub mod twilight_service;
