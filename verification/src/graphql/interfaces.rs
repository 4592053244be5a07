//! Interfaces which standardize functionality.

pub mod activity;
pub mod actor;
pub mod node;
pub mod object;

pub use activity::Activity;
pub use actor::Actor;
pub use node::Node;
pub use object::ActivityPubObject;
