//! Layers that can be used to assemble services out of other services.
//!
//! A layer here is plain data, and what its service decides is a plain
//! function: the caller polls and awaits.

pub mod body_to_bytes;
pub mod callback_service;
pub mod default_if_none;
pub mod deserialize_json;
pub mod discord_server_action_queue_provider;
pub mod lambda_http_compatibility;
pub mod provide_cloned_state;
pub mod queue_provider;
pub mod respond_to_interaction;
pub mod twilight_client_provider;
pub mod verify_signature;
pub mod verify_signature_real;
