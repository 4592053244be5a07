//! A Discord channel as a node of the API.

use crate::graphql::snowflake::Snowflake;
use vstd::prelude::*;

verus! {

/// A Discord channel: the guild it is in, and its own id.
#[derive(Debug, Clone)]
pub struct Channel {
    pub guild_id: Snowflake,
    pub channel_id: Snowflake,
}

} // verus!
