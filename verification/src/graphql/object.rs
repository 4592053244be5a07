//! The interface of everything that ActivityPub knows by a URL.

use vstd::prelude::*;

verus! {

/// Anything that has an ActivityPub id.
pub trait Object {
    /// The URL of the object.
    fn activitypub_id(&self) -> String;
}

} // verus!
