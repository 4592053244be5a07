//! The interface of everything that can be queried by itself.

use vstd::prelude::*;

verus! {

/// A node, representing any individually queryable entity.
pub trait Node {
    /// Returns the node's Base64-encoded id, which indicates both the
    /// concrete type of the object as well as any unique identifiers
    /// it requires.
    fn id(&self) -> String;
}

} // verus!
