//! The interface of ActivityPub objects.

use crate::graphql::interfaces::node::Node;
use vstd::prelude::*;

verus! {

/// An ActivityPub Object, with no other guarantees. May be a local Actor,
/// a foreign Actor, a locally-created Object, an Activity, or any other
/// item which ActivityPub recognizes.
pub trait ActivityPubObject: Node {
    /// The URL for this object.
    fn activitypub_id(&self) -> String;
}

} // verus!
