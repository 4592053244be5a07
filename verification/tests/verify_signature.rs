use ed25519_dalek::{ExpandedSecretKey, PublicKey, SecretKey};
use eris_lib::layers::verify_signature::{
    call, get_signature, get_timestamp_bytes, header_is_text, signature_checked, signature_parsed,
    valid_discord_signature, verify_discord_signature, DiscordPublicKey,
    DiscordSignatureVerificationFailure, DiscordSignatureVerificationLayerError, SignatureHeaders,
    Verified, NOT_HEX, NOT_UTF8, SIGNATURE_HEADER, TIMESTAMP_HEADER,
};
use eris_lib::layers::verify_signature_real::{Checked, DiscordVerificationLayer};

const TIMESTAMP: &[u8] = b"1700000000";
const BODY: &[u8] = br#"{"type":1}"#;

fn keys() -> (ExpandedSecretKey, PublicKey) {
    let secret = SecretKey::from_bytes(&[7u8; 32]).unwrap();
    let public = PublicKey::from(&secret);
    (ExpandedSecretKey::from(&secret), public)
}

/// The headers that Discord would send for `BODY` at `TIMESTAMP`.
fn signed_headers() -> SignatureHeaders {
    let (secret, public) = keys();
    let mut message = TIMESTAMP.to_vec();
    message.extend_from_slice(BODY);
    let signature = secret.sign(&message, &public);
    SignatureHeaders {
        signature: Some(hex::encode(signature.to_bytes()).into_bytes()),
        timestamp: Some(TIMESTAMP.to_vec()),
    }
}

#[test]
fn good_signature_is_accepted() {
    let key = DiscordPublicKey::new(keys().1);
    assert_eq!(verify_discord_signature(Some(&key), &signed_headers(), BODY), Ok(()));
}

#[test]
fn upper_case_hex_is_accepted() {
    let key = DiscordPublicKey::new(keys().1);
    let mut headers = signed_headers();
    headers.signature = headers.signature.map(|s| s.to_ascii_uppercase());
    assert_eq!(verify_discord_signature(Some(&key), &headers, BODY), Ok(()));
}

#[test]
fn changed_body_is_an_invalid_signature() {
    let key = DiscordPublicKey::new(keys().1);
    assert_eq!(
        verify_discord_signature(Some(&key), &signed_headers(), br#"{"type":2}"#),
        Err(DiscordSignatureVerificationFailure::InvalidSignature)
    );
}

#[test]
fn changed_timestamp_is_an_invalid_signature() {
    let key = DiscordPublicKey::new(keys().1);
    let mut headers = signed_headers();
    headers.timestamp = Some(b"1700000001".to_vec());
    assert_eq!(
        verify_discord_signature(Some(&key), &headers, BODY),
        Err(DiscordSignatureVerificationFailure::InvalidSignature)
    );
}

#[test]
fn other_key_is_an_invalid_signature() {
    let other = PublicKey::from(&SecretKey::from_bytes(&[8u8; 32]).unwrap());
    let key = DiscordPublicKey::new(other);
    assert_eq!(
        verify_discord_signature(Some(&key), &signed_headers(), BODY),
        Err(DiscordSignatureVerificationFailure::InvalidSignature)
    );
}

#[test]
fn missing_key_comes_first() {
    let headers = SignatureHeaders { signature: None, timestamp: None };
    assert_eq!(
        verify_discord_signature(None, &headers, BODY),
        Err(DiscordSignatureVerificationFailure::MissingPublicKey)
    );
}

#[test]
fn missing_signature_header_is_named() {
    let key = DiscordPublicKey::new(keys().1);
    let headers = SignatureHeaders { signature: None, timestamp: None };
    assert_eq!(
        verify_discord_signature(Some(&key), &headers, BODY),
        Err(DiscordSignatureVerificationFailure::MissingHeader("X-Signature-Ed25519"))
    );
    assert_eq!(SIGNATURE_HEADER, "X-Signature-Ed25519");
}

#[test]
fn missing_timestamp_header_is_named() {
    let key = DiscordPublicKey::new(keys().1);
    let mut headers = signed_headers();
    headers.timestamp = None;
    assert_eq!(
        verify_discord_signature(Some(&key), &headers, BODY),
        Err(DiscordSignatureVerificationFailure::MissingHeader("X-Signature-Timestamp"))
    );
    assert_eq!(TIMESTAMP_HEADER, "X-Signature-Timestamp");
    assert_eq!(
        get_timestamp_bytes(&headers),
        Err(DiscordSignatureVerificationFailure::MissingHeader("X-Signature-Timestamp"))
    );
    assert_eq!(get_timestamp_bytes(&signed_headers()), Ok(&TIMESTAMP.to_vec()));
}

#[test]
fn signature_that_is_not_text_is_badly_formatted() {
    let headers = SignatureHeaders { signature: Some(vec![b'a', 0xff]), timestamp: None };
    assert_eq!(
        get_signature(&headers),
        Err(DiscordSignatureVerificationFailure::BadFormat("header must be UTF-8 encoded"))
    );
    assert_eq!(NOT_UTF8, "header must be UTF-8 encoded");
    let control = SignatureHeaders { signature: Some(vec![b'a', 0x1f]), timestamp: None };
    assert_eq!(
        get_signature(&control),
        Err(DiscordSignatureVerificationFailure::BadFormat("header must be UTF-8 encoded"))
    );
}

#[test]
fn signature_that_is_not_hex_is_badly_formatted() {
    for value in [&b"xyz"[..], &b"abc"[..], &b"0g"[..], &b"12 4"[..]] {
        let headers = SignatureHeaders { signature: Some(value.to_vec()), timestamp: None };
        assert_eq!(
            get_signature(&headers),
            Err(DiscordSignatureVerificationFailure::BadFormat("signature must be in hex format"))
        );
    }
    assert_eq!(NOT_HEX, "signature must be in hex format");
}

#[test]
fn hex_of_the_wrong_length_is_an_invalid_signature() {
    let short = SignatureHeaders { signature: Some(b"abcd".to_vec()), timestamp: None };
    assert_eq!(get_signature(&short), Err(DiscordSignatureVerificationFailure::InvalidSignature));
    let empty = SignatureHeaders { signature: Some(Vec::new()), timestamp: None };
    assert_eq!(get_signature(&empty), Err(DiscordSignatureVerificationFailure::InvalidSignature));
    let long = SignatureHeaders { signature: Some(vec![b'0'; 130]), timestamp: None };
    assert_eq!(get_signature(&long), Err(DiscordSignatureVerificationFailure::InvalidSignature));
}

#[test]
fn high_bits_in_the_last_byte_are_an_invalid_signature() {
    let mut hex = vec![b'0'; 128];
    hex[126] = b'2';
    let headers = SignatureHeaders { signature: Some(hex.clone()), timestamp: None };
    assert_eq!(get_signature(&headers), Err(DiscordSignatureVerificationFailure::InvalidSignature));
    hex[126] = b'1';
    hex[127] = b'f';
    let headers = SignatureHeaders { signature: Some(hex), timestamp: None };
    let signature = get_signature(&headers).unwrap();
    assert_eq!(signature.to_bytes()[63], 0x1f);
    assert_eq!(signature.to_bytes()[0], 0);
}

#[test]
fn signature_is_decoded_from_its_hex() {
    let headers = signed_headers();
    let signature = get_signature(&headers).unwrap();
    let (secret, public) = keys();
    let mut message = TIMESTAMP.to_vec();
    message.extend_from_slice(BODY);
    assert_eq!(signature, secret.sign(&message, &public));
    assert!(valid_discord_signature(&public, &signature, TIMESTAMP, BODY));
    assert!(!valid_discord_signature(&public, &signature, BODY, TIMESTAMP));
}

#[test]
fn header_text_is_tab_or_visible_ascii() {
    assert!(header_is_text(b""));
    assert!(header_is_text(b"abc DEF\t~"));
    assert!(!header_is_text(&[0x7f]));
    assert!(!header_is_text(&[0x80]));
    assert!(!header_is_text(b"a\nb"));
    assert!(header_is_text(&[32]));
    assert!(!header_is_text(&[31]));
    assert!(header_is_text(&[126]));
}

#[test]
fn outcomes_of_the_outside_checks_become_failures() {
    assert_eq!(signature_parsed(None), Err(DiscordSignatureVerificationFailure::InvalidSignature));
    let signature = get_signature(&signed_headers()).unwrap();
    assert_eq!(signature_parsed(Some(signature)), Ok(signature));
    assert_eq!(signature_checked(true), Ok(()));
    assert_eq!(signature_checked(false), Err(DiscordSignatureVerificationFailure::InvalidSignature));
}

#[test]
fn service_forwards_good_requests_and_rejects_the_rest() {
    let key = DiscordPublicKey::new(keys().1);
    let decision: Verified<String> = call(Some(&key), &signed_headers(), BODY);
    assert!(matches!(decision, Verified::Forward));
    let decision: Verified<String> = call(Some(&key), &signed_headers(), b"other");
    assert!(matches!(
        decision,
        Verified::Reject(DiscordSignatureVerificationLayerError::DiscordSignatureVerificationFailure(
            DiscordSignatureVerificationFailure::InvalidSignature
        ))
    ));
    let decision: Verified<String> = call(None, &signed_headers(), BODY);
    assert!(matches!(
        decision,
        Verified::Reject(DiscordSignatureVerificationLayerError::DiscordSignatureVerificationFailure(
            DiscordSignatureVerificationFailure::MissingPublicKey
        ))
    ));
}

#[test]
fn public_key_wrapper_gives_its_key_back() {
    let public = keys().1;
    assert_eq!(DiscordPublicKey::new(public).deref(), &public);
}

#[test]
fn verifying_layer_answers_unauthorized_without_reading_the_body() {
    type Service = eris_lib::layers::verify_signature_real::DiscordVerificationService<()>;
    let no_signature = SignatureHeaders { signature: None, timestamp: Some(TIMESTAMP.to_vec()) };
    assert!(matches!(Service::verify_discord_signature(&no_signature), Checked::Unauthorized));
    let mut no_timestamp = signed_headers();
    no_timestamp.timestamp = None;
    assert!(matches!(Service::verify_discord_signature(&no_timestamp), Checked::Unauthorized));
    let bad = SignatureHeaders { signature: Some(b"zz".to_vec()), timestamp: Some(TIMESTAMP.to_vec()) };
    assert!(matches!(Service::verify_discord_signature(&bad), Checked::Unauthorized));
    let headers = signed_headers();
    match Service::verify_discord_signature(&headers) {
        Checked::ReadBody { signature, timestamp_bytes } => {
            assert_eq!(timestamp_bytes, &TIMESTAMP.to_vec());
            assert_eq!(Ok(signature), get_signature(&headers));
        }
        Checked::Unauthorized => panic!("both headers are there"),
    };
}

#[test]
fn verifying_layer_forwards_only_signed_requests() {
    let service = DiscordVerificationLayer::new(keys().1).layer(());
    assert!(service.call(&signed_headers(), BODY));
    assert!(!service.call(&signed_headers(), b"tampered"));
    let unsigned = SignatureHeaders { signature: None, timestamp: None };
    assert!(!service.call(&unsigned, BODY));
    assert_eq!(eris_lib::layers::verify_signature_real::UNAUTHORIZED, 401);
    assert_eq!(eris_lib::layers::verify_signature_real::SIGNATURE_INVALID, "signature invalid");
}
