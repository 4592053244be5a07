//! What the handler of Discord's actions works on.

pub mod server_actions;
