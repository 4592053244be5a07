//! The instance itself as a node of the API.

use vstd::prelude::*;

verus! {

/// The GraphQL object representing the instance.
#[derive(Debug, Clone)]
pub struct Instance {
    /// The URL of the instance's domain.
    pub domain: String,
}

} // verus!
