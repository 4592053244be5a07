//! A layer that parses the body of a request as JSON before the request goes
//! to the inner service.

use vstd::prelude::*;

verus! {

/// `serde_json::Error`: why JSON could not be read or written.
#[verifier::external_type_specification]
#[verifier::external_body]
pub struct ExJsonError(serde_json::Error);

/// The error that might occur when attempting to deserialize a Bytes payload
/// from a Request or using that payload.
#[derive(Debug)]
pub enum JsonDeserializationServiceError<E> {
    /// Deserialization error
    JsonDeserialization(serde_json::Error),
    /// Error pass-through from inner service
    InnerError(E),
}

/// `serde_json::from_slice` reads a value from the JSON in a slice of bytes;
/// here the value is an interaction. Nothing is claimed of what it reads: an
/// interaction holds maps that are seeded anew each time they are made, so
/// two readings of the same bytes need not be the same value.
#[verifier::external_body]
pub(crate) fn interaction_from_slice(bytes: &[u8]) -> (parsed: Result<
    twilight_model::application::interaction::Interaction,
    serde_json::Error,
>) {
    serde_json::from_slice(bytes)
}

/// Whether `parsed` is what a reading of `bytes` as the JSON of an
/// interaction gave: the interaction, or why the bytes are none.
pub closed spec fn read_from(
    bytes: &[u8],
    parsed: Result<twilight_model::application::interaction::Interaction, serde_json::Error>,
) -> bool {
    call_ensures(interaction_from_slice, (bytes,), parsed)
}

/// Reads `bytes` as the JSON of an interaction.
pub(crate) fn read_interaction(bytes: &[u8]) -> (parsed: Result<
    twilight_model::application::interaction::Interaction,
    serde_json::Error,
>)
    ensures
        read_from(bytes, parsed),
{
    interaction_from_slice(bytes)
}

/// Takes in the parsing of the body: the payload goes on to the inner
/// service, a failure to parse is the answer, as `JsonDeserialization`.
pub fn deserialize_json<T, E>(parsed: Result<T, serde_json::Error>) -> (request: Result<
    T,
    JsonDeserializationServiceError<E>,
>)
    ensures
        request == match parsed {
            Ok(payload) => Ok::<T, JsonDeserializationServiceError<E>>(payload),
            Err(error) => Err(JsonDeserializationServiceError::JsonDeserialization(error)),
        },
{
    match parsed {
        Ok(payload) => Ok(payload),
        Err(error) => Err(JsonDeserializationServiceError::JsonDeserialization(error)),
    }
}

/// Takes in the inner service's answer, which is also its failure to get
/// ready: a response passes through, an error is `InnerError`.
pub fn deserialize_json_layer_fn<R, E>(answer: Result<R, E>) -> (response: Result<
    R,
    JsonDeserializationServiceError<E>,
>)
    ensures
        response == match answer {
            Ok(response) => Ok::<R, JsonDeserializationServiceError<E>>(response),
            Err(error) => Err(JsonDeserializationServiceError::InnerError(error)),
        },
{
    match answer {
        Ok(response) => Ok(response),
        Err(error) => Err(JsonDeserializationServiceError::InnerError(error)),
    }
}

} // verus!
