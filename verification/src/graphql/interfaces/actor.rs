//! The interface of ActivityPub actors.

use crate::graphql::interfaces::object::ActivityPubObject;
use vstd::prelude::*;

verus! {

/// An ActivityPub Actor, capable of performing Activities.
/// As per the spec, must have an inbox URL and an outbox URL.
/// Eris additionally requires that all Actors have a public key to
/// verify signed Activities.
pub trait Actor: ActivityPubObject {
    /// The URL of the actor's inbox.
    fn inbox_url(&self) -> String;

    /// The URL of the actor's outbox.
    fn outbox_url(&self) -> String;

    /// The actor's public key.
    fn public_key_pem(&self) -> String;
}

} // verus!
