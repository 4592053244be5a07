//! Service-composition building blocks for a Discord bridge: the decisions
//! behind a background task host, a queue-injecting layer, a batcher, a retry
//! policy and a cache-aside wrapper, each stated with a contract.

pub mod cache;
pub mod channels;
pub mod deploy;
pub mod graphql;
pub mod layers;
pub mod payloads;
pub mod scheduling;
pub mod services;
pub mod twilight;
