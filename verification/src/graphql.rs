//! The shape of the GraphQL API: its scalar and object types and the
//! interfaces that they implement.

pub mod channel;
pub mod interfaces;
pub mod nodes;
pub mod object;
pub mod query;
pub mod snowflake;

pub use query::Query;
pub use snowflake::Snowflake;
