//! Node types, representing a queryable entity.

pub mod channel;
pub mod instance;

pub use instance::Instance;
