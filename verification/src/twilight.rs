//! The Discord model types that pass through this library untouched.
//!
//! The library moves these values around and never looks inside them.

use vstd::prelude::*;

verus! {

/// `twilight_model::id::Id`: the id of something in Discord; the marker
/// says of what.
#[verifier::external_type_specification]
#[verifier::external_body]
#[verifier::reject_recursive_types(T)]
pub struct ExId<T>(twilight_model::id::Id<T>);

/// `twilight_model::id::marker::ApplicationMarker`: marks the id of an
/// application.
#[verifier::external_type_specification]
#[verifier::external_body]
pub struct ExApplicationMarker(twilight_model::id::marker::ApplicationMarker);

/// `twilight_model::id::marker::ChannelMarker`: marks the id of a channel.
#[verifier::external_type_specification]
#[verifier::external_body]
pub struct ExChannelMarker(twilight_model::id::marker::ChannelMarker);

/// `twilight_model::id::marker::MessageMarker`: marks the id of a message.
#[verifier::external_type_specification]
#[verifier::external_body]
pub struct ExMessageMarker(twilight_model::id::marker::MessageMarker);

/// `twilight_model::channel::message::Embed`: the embed of a message.
#[verifier::external_type_specification]
#[verifier::external_body]
pub struct ExEmbed(twilight_model::channel::message::Embed);

/// `twilight_model::channel::Message`: a message as Discord sends it back.
#[verifier::external_type_specification]
#[verifier::external_body]
pub struct ExMessage(twilight_model::channel::Message);

/// `twilight_model::application::interaction::Interaction`: an interaction
/// as Discord posts it.
#[verifier::external_type_specification]
#[verifier::external_body]
pub struct ExInteraction(twilight_model::application::interaction::Interaction);

/// `Id::clone` copies the id: an `Id` is `Copy`.
pub assume_specification<T>[ <twilight_model::id::Id<T> as Clone>::clone ](
    id: &twilight_model::id::Id<T>,
) -> (copy: twilight_model::id::Id<T>)
    ensures
        copy == *id,
;

/// `Embed::clone` duplicates the embed. Nothing is claimed of the duplicate.
pub assume_specification[ <twilight_model::channel::message::Embed as Clone>::clone ](
    embed: &twilight_model::channel::message::Embed,
) -> (copy: twilight_model::channel::message::Embed);

} // verus!
