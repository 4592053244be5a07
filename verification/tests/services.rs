use eris_lib::layers::body_to_bytes::BodyToBytesServiceError;
use eris_lib::layers::deserialize_json::JsonDeserializationServiceError;
use eris_lib::layers::queue_provider::QueueProviderLayerError;
use eris_lib::layers::respond_to_interaction::{
    queued, respond_to_interaction, respond_to_interaction_layer_fn, respond_to_kind,
    InteractionKind, InteractionReply, InteractionResponseError, Respond,
};
use eris_lib::layers::verify_signature::{
    DiscordSignatureVerificationFailure, DiscordSignatureVerificationLayerError,
};
use eris_lib::payloads::{DiscordClientActionResponse, DiscordServerAction};
use eris_lib::services::discord_client_action::{
    answered, discord_client_action_service, log_line, AfterAction, DiscordClientActionServiceError,
};
use eris_lib::layers::verify_signature::{DiscordPublicKey, SignatureHeaders};
use eris_lib::services::discord_endpoint::{
    discord_endpoint_service, flatten, parsed_request, receive, recover, DiscordEndpointError,
    EndpointResponse, LayeredError, BAD_REQUEST, INTERNAL_SERVER_ERROR, UNAUTHORIZED,
};
use eris_lib::services::in_memory_queue::in_memory_queue;
use eris_lib::services::interaction_response::{interaction_response_service, response_to_interaction};
use eris_lib::services::twilight_service::{
    ClientErrorKind, TwilightClientError, TwilightServiceError, TwilightValidationError,
};
use twilight_model::application::interaction::Interaction;
use twilight_model::channel::Message;

fn json_error() -> serde_json::Error {
    serde_json::from_str::<u8>("x").unwrap_err()
}

fn interaction(kind: u8) -> Interaction {
    let json = format!(
        r#"{{"application_id":"1","id":"2","token":"token","type":{kind},"version":1,"channel_id":"3","data":{{"id":"4","name":"block","type":1}}}}"#
    );
    serde_json::from_str(&json).unwrap()
}

fn message() -> Message {
    serde_json::from_str(
        r#"{"attachments":[],"author":{"id":"1","username":"u","discriminator":"0001","avatar":null},"channel_id":"2","content":"hi","edited_timestamp":null,"embeds":[],"id":"3","mention_everyone":false,"mention_roles":[],"mentions":[],"pinned":false,"timestamp":"2021-01-01T00:00:00.000000+00:00","tts":false,"type":0}"#,
    )
    .unwrap()
}

#[test]
fn ping_is_answered_with_pong_and_not_queued() {
    assert!(matches!(respond_to_interaction(interaction(1)), Respond::Reply(InteractionReply::Pong)));
    assert!(matches!(response_to_interaction(interaction(1)), Respond::Reply(InteractionReply::Pong)));
}

#[test]
fn other_interactions_are_queued_whole() {
    for kind in [2u8, 4] {
        match respond_to_interaction(interaction(kind)) {
            Respond::Queue(DiscordServerAction::PostInteraction(queued)) => {
                assert_eq!(queued, interaction(kind));
            }
            _ => panic!("an interaction that is no ping is queued"),
        }
    }
    assert!(matches!(
        response_to_interaction(interaction(2)),
        Respond::Queue(DiscordServerAction::PostInteraction(_))
    ));
}

#[test]
fn only_the_ping_kind_is_answered_at_once() {
    assert!(matches!(
        respond_to_kind(InteractionKind::Ping, interaction(2)),
        Respond::Reply(InteractionReply::Pong)
    ));
    for kind in [
        InteractionKind::ApplicationCommand,
        InteractionKind::MessageComponent,
        InteractionKind::ApplicationCommandAutocomplete,
        InteractionKind::ModalSubmit,
        InteractionKind::Other,
    ] {
        assert!(matches!(
            respond_to_kind(kind, interaction(1)),
            Respond::Queue(DiscordServerAction::PostInteraction(_))
        ));
    }
}

#[test]
fn queued_interaction_is_deferred() {
    let deferred: Result<InteractionReply, InteractionResponseError<&str>> = queued(Ok(()));
    assert!(matches!(deferred, Ok(InteractionReply::Defer)));
    let failed: Result<InteractionReply, InteractionResponseError<&str>> = queued(Err("closed"));
    assert!(matches!(failed, Err(InteractionResponseError::QueueServiceError("closed"))));
}

#[test]
fn reply_that_cannot_be_encoded_is_a_serialization_error() {
    let body: Result<u8, InteractionResponseError<&str>> = respond_to_interaction_layer_fn(Ok(1));
    assert!(matches!(body, Ok(1)));
    let body: Result<u8, InteractionResponseError<&str>> = respond_to_interaction_layer_fn(Err(json_error()));
    assert!(matches!(body, Err(InteractionResponseError::SerializationError(_))));
}

#[test]
fn queue_errors_of_either_layer_are_queue_service_errors() {
    let outer = interaction_response_service(QueueProviderLayerError::QueueError("outer"));
    assert!(matches!(outer, InteractionResponseError::QueueServiceError("outer")));
    let inner = interaction_response_service(QueueProviderLayerError::InnerError(
        InteractionResponseError::QueueServiceError("inner"),
    ));
    assert!(matches!(inner, InteractionResponseError::QueueServiceError("inner")));
    let other = interaction_response_service::<&str>(QueueProviderLayerError::InnerError(
        InteractionResponseError::SerializationError(json_error()),
    ));
    assert!(matches!(other, InteractionResponseError::SerializationError(_)));
}

#[test]
fn server_actions_are_made_from_what_discord_sent() {
    assert!(matches!(
        DiscordServerAction::from(interaction(2)),
        DiscordServerAction::PostInteraction(i) if i == interaction(2)
    ));
    assert!(matches!(
        DiscordServerAction::from(DiscordClientActionResponse::MessageCreated(message())),
        DiscordServerAction::DiscordClientActionResponse(DiscordClientActionResponse::MessageCreated(m)) if m == message()
    ));
}

type Layered = LayeredError<&'static str, &'static str>;

fn signature_failure(failure: DiscordSignatureVerificationFailure) -> Layered {
    BodyToBytesServiceError::InnerError(
        DiscordSignatureVerificationLayerError::DiscordSignatureVerificationFailure(failure),
    )
}

fn inner(error: InteractionResponseError<&'static str>) -> Layered {
    BodyToBytesServiceError::InnerError(DiscordSignatureVerificationLayerError::InnerError(
        JsonDeserializationServiceError::InnerError(error),
    ))
}

#[test]
fn layered_errors_are_named_by_the_layer_that_failed() {
    assert!(matches!(
        flatten::<&str, &str>(BodyToBytesServiceError::ToBytesError("body")),
        DiscordEndpointError::ToBytesError("body")
    ));
    assert!(matches!(
        flatten(signature_failure(DiscordSignatureVerificationFailure::InvalidSignature)),
        DiscordEndpointError::DiscordSignatureVerificationError(
            DiscordSignatureVerificationFailure::InvalidSignature
        )
    ));
    let unparsed: Layered = BodyToBytesServiceError::InnerError(
        DiscordSignatureVerificationLayerError::InnerError(
            JsonDeserializationServiceError::JsonDeserialization(json_error()),
        ),
    );
    assert!(matches!(flatten(unparsed), DiscordEndpointError::JsonDeserializationError(_)));
    assert!(matches!(
        flatten(inner(InteractionResponseError::QueueServiceError("queue"))),
        DiscordEndpointError::QueueServiceError("queue")
    ));
    assert!(matches!(
        flatten(inner(InteractionResponseError::SerializationError(json_error()))),
        DiscordEndpointError::SerializationError(_)
    ));
}

#[test]
fn endpoint_errors_are_answered_with_their_status() {
    type Error = DiscordEndpointError<&'static str, &'static str>;
    assert!(matches!(recover::<&str, &str>(Error::ToBytesError("x")), Ok(400)));
    assert!(matches!(recover::<&str, &str>(Error::JsonDeserializationError(json_error())), Ok(400)));
    assert!(matches!(recover::<&str, &str>(Error::SerializationError(json_error())), Ok(500)));
    assert!(matches!(
        recover::<&str, &str>(Error::DiscordSignatureVerificationError(
            DiscordSignatureVerificationFailure::MissingPublicKey
        )),
        Ok(500)
    ));
    for failure in [
        DiscordSignatureVerificationFailure::MissingHeader("X-Signature-Ed25519"),
        DiscordSignatureVerificationFailure::BadFormat("signature must be in hex format"),
        DiscordSignatureVerificationFailure::InvalidSignature,
    ] {
        assert!(matches!(
            recover::<&str, &str>(Error::DiscordSignatureVerificationError(failure)),
            Ok(401)
        ));
    }
    assert!(matches!(
        recover::<&str, &str>(Error::QueueServiceError("queue")),
        Err(DiscordEndpointError::QueueServiceError("queue"))
    ));
    assert_eq!((BAD_REQUEST, UNAUTHORIZED, INTERNAL_SERVER_ERROR), (400, 401, 500));
}

#[test]
fn endpoint_passes_responses_and_queue_errors_through() {
    let fine: Result<EndpointResponse<&str>, _> = discord_endpoint_service::<&str, &str, &str>(Ok("body"));
    assert!(matches!(fine, Ok(EndpointResponse::Response("body"))));
    let unsigned: Result<EndpointResponse<&str>, _> = discord_endpoint_service(Err(signature_failure(
        DiscordSignatureVerificationFailure::MissingHeader("X-Signature-Timestamp"),
    )));
    assert!(matches!(unsigned, Ok(EndpointResponse::Status(401))));
    let unread: Result<EndpointResponse<&str>, _> =
        discord_endpoint_service::<&str, &str, &str>(Err(BodyToBytesServiceError::ToBytesError("cut")));
    assert!(matches!(unread, Ok(EndpointResponse::Status(400))));
    let unqueued: Result<EndpointResponse<&str>, _> =
        discord_endpoint_service(Err(inner(InteractionResponseError::QueueServiceError("gone"))));
    assert!(matches!(unqueued, Err(DiscordEndpointError::QueueServiceError("gone"))));
}

fn twilight_errors() -> Vec<(TwilightServiceError, &'static str)> {
    vec![
        (
            TwilightServiceError::TwilightValidationError(
                TwilightValidationError::MessageValidationError("m".to_string()),
            ),
            "twilight message validation error",
        ),
        (
            TwilightServiceError::TwilightValidationError(TwilightValidationError::ValidationError(
                "v".to_string(),
            )),
            "twilight validation error",
        ),
        (
            TwilightServiceError::TwilightClientError(TwilightClientError {
                kind: ClientErrorKind::Unauthorized,
                message: "c".to_string(),
            }),
            "twilight client error",
        ),
        (
            TwilightServiceError::DeserializationBodyError("d".to_string()),
            "error deserializing Discord response",
        ),
    ]
}

#[test]
fn created_message_is_queued_as_a_server_action() {
    let next: AfterAction<&str> = answered(Ok(Some(DiscordClientActionResponse::MessageCreated(message()))));
    assert!(matches!(
        next,
        AfterAction::Queue(DiscordServerAction::DiscordClientActionResponse(
            DiscordClientActionResponse::MessageCreated(m)
        )) if m == message()
    ));
    let next: AfterAction<&str> = answered(Ok(None));
    assert!(matches!(next, AfterAction::Done(Ok(()))));
    let next: AfterAction<&str> = answered(Err(TwilightServiceError::DeserializationBodyError("d".to_string())));
    assert!(matches!(
        next,
        AfterAction::Done(Err(DiscordClientActionServiceError::TwilightServiceError(
            TwilightServiceError::DeserializationBodyError(_)
        )))
    ));
}

#[test]
fn queue_failure_after_an_action_is_named() {
    let done = eris_lib::services::discord_client_action::queued(Err("closed"));
    assert!(matches!(
        done,
        Err(DiscordClientActionServiceError::DiscordServerActionQueueError("closed"))
    ));
    assert!(eris_lib::services::discord_client_action::queued::<&str>(Ok(())).is_ok());
}

#[test]
fn every_error_of_an_action_is_logged_and_swallowed() {
    for (error, line) in twilight_errors() {
        let error: DiscordClientActionServiceError<&str> =
            DiscordClientActionServiceError::TwilightServiceError(error);
        assert_eq!(log_line(&error), line);
        let (end, logged) = discord_client_action_service(Err(error));
        assert!(end.is_ok());
        assert_eq!(logged, Some(line));
    }
    let queue = DiscordClientActionServiceError::DiscordServerActionQueueError("closed");
    assert_eq!(log_line(&queue), "server action queue failed");
    let (end, logged) = discord_client_action_service(Err(queue));
    assert!(end.is_ok());
    assert_eq!(logged, Some("server action queue failed"));
    let (end, logged) = discord_client_action_service::<&str>(Ok(()));
    assert!(end.is_ok());
    assert_eq!(logged, None);
}

#[test]
fn in_memory_queue_delivers_in_order_until_the_subscription_is_gone() {
    let (service, mut subscription) = in_memory_queue::<u32>();
    assert!(matches!(service.poll_ready(), Some(Ok(()))));
    let other = service.clone();
    service.call(1).unwrap();
    other.call(2).unwrap();
    service.call(3).unwrap();
    assert!(!service.deref().is_closed());
    assert_eq!(subscription.deref().len(), 3);
    assert_eq!(subscription.deref_mut().try_recv(), Ok(1));
    assert_eq!(subscription.deref_mut().try_recv(), Ok(2));
    assert_eq!(subscription.deref_mut().try_recv(), Ok(3));
    drop(subscription);
    assert_eq!(service.call(4), Err(4));
    assert!(matches!(service.poll_ready(), Some(Ok(()))));
}

const PING: &[u8] = br#"{"application_id":"1","id":"2","token":"token","type":1,"version":1}"#;
const COMMAND: &[u8] = br#"{"application_id":"1","id":"2","token":"token","type":2,"version":1,"channel_id":"3","data":{"id":"4","name":"block","type":1}}"#;

fn signing_key() -> (ed25519_dalek::ExpandedSecretKey, ed25519_dalek::PublicKey) {
    let secret = ed25519_dalek::SecretKey::from_bytes(&[3u8; 32]).unwrap();
    let public = ed25519_dalek::PublicKey::from(&secret);
    (ed25519_dalek::ExpandedSecretKey::from(&secret), public)
}

fn signed(body: &[u8]) -> SignatureHeaders {
    let (secret, public) = signing_key();
    let mut message = b"12345".to_vec();
    message.extend_from_slice(body);
    SignatureHeaders {
        signature: Some(hex::encode(secret.sign(&message, &public).to_bytes()).into_bytes()),
        timestamp: Some(b"12345".to_vec()),
    }
}

#[test]
fn signed_ping_is_answered_and_signed_command_is_queued() {
    let key = DiscordPublicKey::new(signing_key().1);
    let ping: Result<Respond, Layered> = receive(Some(&key), &signed(PING), PING);
    assert!(matches!(ping, Ok(Respond::Reply(InteractionReply::Pong))));
    let command: Result<Respond, Layered> = receive(Some(&key), &signed(COMMAND), COMMAND);
    match command {
        Ok(Respond::Queue(DiscordServerAction::PostInteraction(queued))) => {
            assert_eq!(queued, serde_json::from_slice::<Interaction>(COMMAND).unwrap());
        }
        _ => panic!("a signed command is queued"),
    }
}

#[test]
fn unsigned_request_is_not_parsed() {
    let key = DiscordPublicKey::new(signing_key().1);
    let forged: Result<Respond, Layered> = receive(Some(&key), &signed(PING), COMMAND);
    assert!(matches!(
        forged,
        Err(BodyToBytesServiceError::InnerError(
            DiscordSignatureVerificationLayerError::DiscordSignatureVerificationFailure(
                DiscordSignatureVerificationFailure::InvalidSignature
            )
        ))
    ));
    let garbage = b"not json";
    let unsigned: Result<Respond, Layered> =
        receive(Some(&key), &SignatureHeaders { signature: None, timestamp: None }, garbage);
    assert!(matches!(
        unsigned,
        Err(BodyToBytesServiceError::InnerError(
            DiscordSignatureVerificationLayerError::DiscordSignatureVerificationFailure(
                DiscordSignatureVerificationFailure::MissingHeader("X-Signature-Ed25519")
            )
        ))
    ));
    let keyless: Result<Respond, Layered> = receive(None, &signed(PING), PING);
    assert!(matches!(
        keyless,
        Err(BodyToBytesServiceError::InnerError(
            DiscordSignatureVerificationLayerError::DiscordSignatureVerificationFailure(
                DiscordSignatureVerificationFailure::MissingPublicKey
            )
        ))
    ));
}

#[test]
fn signed_body_that_is_no_interaction_is_a_json_error() {
    let key = DiscordPublicKey::new(signing_key().1);
    let garbage = b"{\"type\":";
    let unparsed: Result<Respond, Layered> = receive(Some(&key), &signed(garbage), garbage);
    assert!(matches!(
        unparsed,
        Err(BodyToBytesServiceError::InnerError(DiscordSignatureVerificationLayerError::InnerError(
            JsonDeserializationServiceError::JsonDeserialization(_)
        )))
    ));
    assert!(matches!(discord_endpoint_service::<&str, _, _>(Err(unparsed.err().unwrap())), Ok(EndpointResponse::Status(400))));
    let failed: Result<Respond, Layered> = parsed_request(Err(json_error()));
    assert!(matches!(
        failed,
        Err(BodyToBytesServiceError::InnerError(DiscordSignatureVerificationLayerError::InnerError(
            JsonDeserializationServiceError::JsonDeserialization(_)
        )))
    ));
    let fine: Result<Respond, Layered> = parsed_request(Ok(interaction(1)));
    assert!(matches!(fine, Ok(Respond::Reply(InteractionReply::Pong))));
}
