//! The endpoint that Discord posts interactions to: which error of which
//! layer becomes which answer.

use crate::layers::body_to_bytes::BodyToBytesServiceError;
use crate::layers::deserialize_json::{
    deserialize_json, read_from, read_interaction, JsonDeserializationServiceError,
};
use crate::layers::respond_to_interaction::{
    kind_of, respond_spec, respond_to_interaction, InteractionResponseError, Respond,
};
use crate::layers::verify_signature::{
    verification, verify_discord_signature, DiscordPublicKey, DiscordSignatureVerificationFailure,
    DiscordSignatureVerificationLayerError, SignatureHeaders,
};
use twilight_model::application::interaction::Interaction;
use vstd::prelude::*;

verus! {

/// The status of a request that could not be read or parsed.
pub const BAD_REQUEST: u16 = 400;

/// The status of a request whose signature is missing or wrong.
pub const UNAUTHORIZED: u16 = 401;

/// The status of a failure on this side.
pub const INTERNAL_SERVER_ERROR: u16 = 500;

/// An error which might occur with the Discord endpoint.
/// Triggers either a 4xx response, or a 5xx response. `B` is the error of
/// the request body, `Q` that of the queue service.
#[derive(Debug)]
pub enum DiscordEndpointError<B, Q> {
    /// Error extracting Bytes from request body
    ToBytesError(B),
    /// Error validating Discord signature
    DiscordSignatureVerificationError(DiscordSignatureVerificationFailure),
    /// Error deserializing Interaction from body
    JsonDeserializationError(serde_json::Error),
    /// Error queueing a received Interaction
    QueueServiceError(Q),
    /// Error serializing response
    SerializationError(serde_json::Error),
}

/// The error of the endpoint's layers, as they are stacked: reading the
/// body, verifying the signature, parsing the interaction, answering it.
pub type LayeredError<B, Q> = BodyToBytesServiceError<
    B,
    DiscordSignatureVerificationLayerError<
        JsonDeserializationServiceError<InteractionResponseError<Q>>,
    >,
>;

/// The endpoint's error for the error of its layers.
pub open spec fn flatten_spec<B, Q>(error: LayeredError<B, Q>) -> DiscordEndpointError<B, Q> {
    match error {
        BodyToBytesServiceError::ToBytesError(error) => DiscordEndpointError::ToBytesError(error),
        BodyToBytesServiceError::InnerError(
            DiscordSignatureVerificationLayerError::DiscordSignatureVerificationFailure(failure),
        ) => DiscordEndpointError::DiscordSignatureVerificationError(failure),
        BodyToBytesServiceError::InnerError(
            DiscordSignatureVerificationLayerError::InnerError(
                JsonDeserializationServiceError::JsonDeserialization(error),
            ),
        ) => DiscordEndpointError::JsonDeserializationError(error),
        BodyToBytesServiceError::InnerError(
            DiscordSignatureVerificationLayerError::InnerError(
                JsonDeserializationServiceError::InnerError(
                    InteractionResponseError::SerializationError(error),
                ),
            ),
        ) => DiscordEndpointError::SerializationError(error),
        BodyToBytesServiceError::InnerError(
            DiscordSignatureVerificationLayerError::InnerError(
                JsonDeserializationServiceError::InnerError(
                    InteractionResponseError::QueueServiceError(error),
                ),
            ),
        ) => DiscordEndpointError::QueueServiceError(error),
    }
}

/// The status that answers `error`, or `None` where the error is passed on.
///
/// A request that could not be read or parsed is a bad request. A missing or
/// wrong signature is unauthorized. A missing public key and a response that
/// could not be encoded are failures on this side. An error of the queue is
/// not answered here: what to make of it is for whoever supplied the queue.
pub open spec fn status_for<B, Q>(error: DiscordEndpointError<B, Q>) -> Option<u16> {
    match error {
        DiscordEndpointError::ToBytesError(_) => Some(BAD_REQUEST),
        DiscordEndpointError::DiscordSignatureVerificationError(
            DiscordSignatureVerificationFailure::MissingPublicKey,
        ) => Some(INTERNAL_SERVER_ERROR),
        DiscordEndpointError::DiscordSignatureVerificationError(_) => Some(UNAUTHORIZED),
        DiscordEndpointError::JsonDeserializationError(_) => Some(BAD_REQUEST),
        DiscordEndpointError::QueueServiceError(_) => None,
        DiscordEndpointError::SerializationError(_) => Some(INTERNAL_SERVER_ERROR),
    }
}

/// What the endpoint answers.
pub enum EndpointResponse<R> {
    /// The response of the layers.
    Response(R),
    /// An empty response with this status.
    Status(u16),
}

/// Whether `respond` is what is done about a request whose body has been
/// read: see [`receive`]. A request whose signature fails gets the failure
/// as the error of the verifying layer, and its body is not read as JSON.
/// For one whose signature is good, `respond` is what [`parsed_request`]
/// makes of a reading of the body.
pub open spec fn received<B, Q>(
    public_key: Option<DiscordPublicKey>,
    headers: SignatureHeaders,
    body: &[u8],
    respond: Result<Respond, LayeredError<B, Q>>,
) -> bool {
    match verification(public_key, headers, body@) {
        Err(failure) => respond == Err::<Respond, LayeredError<B, Q>>(
            BodyToBytesServiceError::InnerError(
                DiscordSignatureVerificationLayerError::DiscordSignatureVerificationFailure(failure),
            ),
        ),
        Ok(()) => exists|interaction: Result<Interaction, serde_json::Error>| #[trigger]
            read_from(body, interaction) && respond == parsed::<B, Q>(interaction),
    }
}

/// What is done about a request whose signature is good, given what the
/// parsing of its body gave: see [`parsed_request`].
pub open spec fn parsed<B, Q>(interaction: Result<Interaction, serde_json::Error>) -> Result<
    Respond,
    LayeredError<B, Q>,
> {
    match interaction {
        Err(error) => Err(
            BodyToBytesServiceError::InnerError(
                DiscordSignatureVerificationLayerError::InnerError(
                    JsonDeserializationServiceError::JsonDeserialization(error),
                ),
            ),
        ),
        Ok(interaction) => Ok(respond_spec(kind_of(interaction), interaction)),
    }
}

/// Takes in the parsing of the body of a request whose signature is good.
///
/// A body that is no interaction is the error of the parsing layer. A ping
/// is answered at once; any other interaction is to be queued.
pub fn parsed_request<B, Q>(interaction: Result<Interaction, serde_json::Error>) -> (respond: Result<
    Respond,
    LayeredError<B, Q>,
>)
    ensures
        respond == parsed::<B, Q>(interaction),
{
    match deserialize_json::<Interaction, InteractionResponseError<Q>>(interaction) {
        Err(error) => Err(
            BodyToBytesServiceError::InnerError(
                DiscordSignatureVerificationLayerError::InnerError(error),
            ),
        ),
        Ok(interaction) => Ok(respond_to_interaction(interaction)),
    }
}

/// Decides what is done about a request whose body has been read, given the
/// key that the request carries, its two signature headers and the body.
///
/// The signature is verified first, and the body is parsed only if it is
/// good: the payload that goes on is one that Discord signed. A failure of
/// either is the error of its layer.
pub fn receive<B, Q>(
    public_key: Option<&DiscordPublicKey>,
    headers: &SignatureHeaders,
    body: &[u8],
) -> (respond: Result<Respond, LayeredError<B, Q>>)
    ensures
        received::<B, Q>(
            match public_key {
                Some(key) => Some(*key),
                None => None,
            },
            *headers,
            body,
            respond,
        ),
{
    match verify_discord_signature(public_key, headers, body) {
        Err(failure) => Err(
            BodyToBytesServiceError::InnerError(
                DiscordSignatureVerificationLayerError::DiscordSignatureVerificationFailure(failure),
            ),
        ),
        Ok(()) => {
            let interaction = read_interaction(body);
            assert(read_from(body, interaction));
            parsed_request(interaction)
        },
    }
}

/// The endpoint's error for the error of its layers: the first layer that
/// failed names it.
pub fn flatten<B, Q>(error: LayeredError<B, Q>) -> (flat: DiscordEndpointError<B, Q>)
    ensures
        flat == flatten_spec(error),
{
    let error = match error {
        BodyToBytesServiceError::ToBytesError(error) => {
            return DiscordEndpointError::ToBytesError(error);
        },
        BodyToBytesServiceError::InnerError(error) => error,
    };
    let error = match error {
        DiscordSignatureVerificationLayerError::DiscordSignatureVerificationFailure(failure) => {
            return DiscordEndpointError::DiscordSignatureVerificationError(failure);
        },
        DiscordSignatureVerificationLayerError::InnerError(error) => error,
    };
    let error = match error {
        JsonDeserializationServiceError::JsonDeserialization(error) => {
            return DiscordEndpointError::JsonDeserializationError(error);
        },
        JsonDeserializationServiceError::InnerError(error) => error,
    };
    match error {
        InteractionResponseError::SerializationError(error) => {
            DiscordEndpointError::SerializationError(error)
        },
        InteractionResponseError::QueueServiceError(error) => {
            DiscordEndpointError::QueueServiceError(error)
        },
    }
}

/// Answers an error with a status, where it has one: see [`status_for`]. An
/// error without one comes back as it is.
pub fn recover<B, Q>(error: DiscordEndpointError<B, Q>) -> (answer: Result<
    u16,
    DiscordEndpointError<B, Q>,
>)
    ensures
        answer == match status_for(error) {
            Some(status) => Ok::<u16, DiscordEndpointError<B, Q>>(status),
            None => Err(error),
        },
{
    match error {
        DiscordEndpointError::ToBytesError(_) => Ok(BAD_REQUEST),
        DiscordEndpointError::DiscordSignatureVerificationError(failure) => match failure {
            DiscordSignatureVerificationFailure::MissingPublicKey => Ok(INTERNAL_SERVER_ERROR),
            DiscordSignatureVerificationFailure::MissingHeader(_) => Ok(UNAUTHORIZED),
            DiscordSignatureVerificationFailure::BadFormat(_) => Ok(UNAUTHORIZED),
            DiscordSignatureVerificationFailure::InvalidSignature => Ok(UNAUTHORIZED),
        },
        DiscordEndpointError::JsonDeserializationError(_) => Ok(BAD_REQUEST),
        DiscordEndpointError::QueueServiceError(error) => Err(
            DiscordEndpointError::QueueServiceError(error),
        ),
        DiscordEndpointError::SerializationError(_) => Ok(INTERNAL_SERVER_ERROR),
    }
}

/// Takes in what the endpoint's layers answered and gives what the endpoint
/// answers: their response, or the status for their error, or, for an error
/// of the queue, that error.
pub fn discord_endpoint_service<R, B, Q>(answer: Result<R, LayeredError<B, Q>>) -> (response: Result<
    EndpointResponse<R>,
    DiscordEndpointError<B, Q>,
>)
    ensures
        response == match answer {
            Ok(response) => Ok::<EndpointResponse<R>, DiscordEndpointError<B, Q>>(
                EndpointResponse::Response(response),
            ),
            Err(error) => match status_for(flatten_spec(error)) {
                Some(status) => Ok(EndpointResponse::Status(status)),
                None => Err(flatten_spec(error)),
            },
        },
{
    match answer {
        Ok(response) => Ok(EndpointResponse::Response(response)),
        Err(error) => match recover(flatten(error)) {
            Ok(status) => Ok(EndpointResponse::Status(status)),
            Err(error) => Err(error),
        },
    }
}

/// Nothing but an error of the queue leaves the endpoint as an error, and
/// every status that answers an error is 400, 401 or 500.
pub proof fn lemma_only_queue_errors_pass<B, Q>(error: DiscordEndpointError<B, Q>)
    ensures
        status_for(error) is None <==> error is QueueServiceError,
        status_for(error) matches Some(status) ==> status == 400 || status == 401 || status == 500,
{
}

} // verus!
