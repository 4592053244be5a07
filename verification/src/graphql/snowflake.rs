//! Discord's ids as a GraphQL scalar.

use vstd::prelude::*;

verus! {

/// A wrapper type around a Discord snowflake to make it usable as a GraphQL
/// scalar type.
#[derive(Debug, Clone)]
pub struct Snowflake(pub String);

} // verus!
