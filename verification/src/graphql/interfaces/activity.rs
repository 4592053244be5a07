//! The interface of ActivityPub activities.

use crate::graphql::interfaces::actor::Actor;
use crate::graphql::interfaces::object::ActivityPubObject;
use vstd::prelude::*;

verus! {

/// An ActivityPub Activity, representing a state-affecting action taken
/// by some Actor. Usually has an object, but may not for intransitive activities.
pub trait Activity: ActivityPubObject {
    /// The type of the Actor performing the Activity.
    type ActorValue: Actor;

    /// The type of the object of the Activity.
    type ActivityPubObjectValue: ActivityPubObject;

    /// The Actor performing the Activity.
    fn actor(&self) -> Self::ActorValue;

    /// The object of the Activity.
    fn object(&self) -> Option<Self::ActivityPubObjectValue>;
}

} // verus!
