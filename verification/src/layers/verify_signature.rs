//! Verifies Discord's Ed25519 signature on an incoming request before the
//! request goes any further.
//!
//! Discord signs the bytes of the `X-Signature-Timestamp` header followed by
//! the bytes of the body, and sends the signature, in hex, in the
//! `X-Signature-Ed25519` header.

use vstd::prelude::*;

verus! {

/// `ed25519_dalek::PublicKey`: an Ed25519 public key.
#[verifier::external_type_specification]
#[verifier::external_body]
pub struct ExPublicKey(ed25519_dalek::PublicKey);

/// `ed25519_dalek::Signature`: an Ed25519 signature.
#[verifier::external_type_specification]
#[verifier::external_body]
pub struct ExSignature(ed25519_dalek::Signature);

/// The header that carries the signature.
pub const SIGNATURE_HEADER: &'static str = "X-Signature-Ed25519";

/// The header that carries the timestamp.
pub const TIMESTAMP_HEADER: &'static str = "X-Signature-Timestamp";

/// Said of a header value that is not text.
pub const NOT_UTF8: &'static str = "header must be UTF-8 encoded";

/// Said of a signature that is not written in hex.
pub const NOT_HEX: &'static str = "signature must be in hex format";

/// Wrapper around an [ed25519_dalek::PublicKey]. This makes the key
/// immutable once defined, and give an opaque type to be used as
/// an HTTP extension.
#[derive(Debug, Clone, Copy)]
pub struct DiscordPublicKey(ed25519_dalek::PublicKey);

/// A reason for the signature validation failure
#[derive(Debug, Clone, Copy, PartialEq, Eq)]
pub enum DiscordSignatureVerificationFailure {
    /// Expected extension with Discord public key
    MissingPublicKey,
    /// Missing a required header
    MissingHeader(&'static str),
    /// Header is present but improperly formatted
    BadFormat(&'static str),
    /// Signature is present, but cannot be used to validate request
    InvalidSignature,
}

/// An error from the DiscordSignatureVerificationLayer, possibly
/// passed up from an inner service
#[derive(Debug)]
pub enum DiscordSignatureVerificationLayerError<E> {
    /// Signature verification failed
    DiscordSignatureVerificationFailure(DiscordSignatureVerificationFailure),
    /// An error from the inner service
    InnerError(E),
}

/// The two headers of a request that the verification reads: the bytes of
/// each value, or `None` where the header is missing.
#[derive(Debug, Clone)]
pub struct SignatureHeaders {
    /// The value of `X-Signature-Ed25519`.
    pub signature: Option<Vec<u8>>,
    /// The value of `X-Signature-Timestamp`.
    pub timestamp: Option<Vec<u8>>,
}

/// The value of a hex digit, if `c` is one: `0` to `9`, `a` to `f` or `A` to
/// `F`.
pub open spec fn hex_digit(c: u8) -> Option<u8> {
    if 0x30 <= c <= 0x39 {
        Some((c - 0x30) as u8)
    } else if 0x61 <= c <= 0x66 {
        Some((c - 0x61 + 10) as u8)
    } else if 0x41 <= c <= 0x46 {
        Some((c - 0x41 + 10) as u8)
    } else {
        None
    }
}

/// Whether `data` is an even number of hex digits.
pub open spec fn is_hex(data: Seq<u8>) -> bool {
    data.len() % 2 == 0 && forall|i: int| 0 <= i < data.len() ==> hex_digit(#[trigger] data[i])
        is Some
}

/// The bytes that the hex digits `data` stand for, two digits to a byte, the
/// high one first.
pub open spec fn hex_decoded(data: Seq<u8>) -> Seq<u8> {
    Seq::new(
        data.len() / 2,
        |i: int| (hex_digit(data[2 * i])->0 * 16 + hex_digit(data[2 * i + 1])->0) as u8,
    )
}

/// Whether a header value is text: every byte of it is a tab or a visible
/// ASCII character.
pub open spec fn is_visible_ascii(value: Seq<u8>) -> bool {
    forall|i: int| 0 <= i < value.len() ==> visible(#[trigger] value[i])
}

/// Whether `b` is a tab or a visible ASCII character.
pub open spec fn visible(b: u8) -> bool {
    b == 9 || 32 <= b < 127
}

/// Whether `bytes` have the form of an Ed25519 signature: 64 bytes, the three
/// highest bits of the last of which are clear.
pub open spec fn signature_form(bytes: Seq<u8>) -> bool {
    bytes.len() == 64 && bytes[63] & 0xe0 == 0
}

/// The signature that `Signature::from_bytes` reads from `bytes`.
pub uninterp spec fn parsed_signature(bytes: Seq<u8>) -> Option<ed25519_dalek::Signature>;

/// Whether `PublicKey::verify` accepts `signature` as `public_key`'s
/// signature of `message`.
pub uninterp spec fn signature_accepted(
    public_key: ed25519_dalek::PublicKey,
    message: Seq<u8>,
    signature: ed25519_dalek::Signature,
) -> bool;

/// `hex::decode` reads two hex digits, of either case, for each byte. It
/// fails on an odd number of characters and on any character that is no hex
/// digit.
#[verifier::external_body]
pub(crate) fn hex_decode(data: &[u8]) -> (decoded: Option<Vec<u8>>)
    ensures
        decoded is Some <==> is_hex(data@),
        decoded matches Some(bytes) ==> bytes@ == hex_decoded(data@),
{
    hex::decode(data).ok()
}

/// `Signature::from_bytes` takes exactly 64 bytes, and refuses them where
/// one of the three highest bits of the last byte is set.
#[verifier::external_body]
pub(crate) fn signature_from_bytes(bytes: &[u8]) -> (signature: Option<ed25519_dalek::Signature>)
    ensures
        signature == parsed_signature(bytes@),
        signature is Some <==> signature_form(bytes@),
{
    ed25519_dalek::Signature::from_bytes(bytes).ok()
}

/// `PublicKey::verify` checks an Ed25519 signature of a message. Its answer
/// is a matter of the key, the message and the signature alone.
#[verifier::external_body]
pub(crate) fn verify(
    public_key: &ed25519_dalek::PublicKey,
    message: &[u8],
    signature: &ed25519_dalek::Signature,
) -> (accepted: bool)
    ensures
        accepted == signature_accepted(*public_key, message@, *signature),
{
    ed25519_dalek::Verifier::verify(public_key, message, signature).is_ok()
}

impl DiscordPublicKey {
    /// The key inside.
    pub closed spec fn key(self) -> ed25519_dalek::PublicKey {
        self.0
    }

    /// Wraps Discord's public key.
    pub fn new(value: ed25519_dalek::PublicKey) -> (public_key: Self)
        ensures
            public_key.key() == value,
    {
        Self(value)
    }

    /// The key inside.
    pub fn deref(&self) -> (key: &ed25519_dalek::PublicKey)
        ensures
            *key == self.key(),
    {
        &self.0
    }
}

/// Whether every byte of a header value is a tab or a visible ASCII
/// character.
pub fn header_is_text(value: &[u8]) -> (text: bool)
    ensures
        text == is_visible_ascii(value@),
{
    let mut i: usize = 0;
    while i < value.len()
        invariant
            i <= value.len(),
            forall|j: int| 0 <= j < i ==> visible(#[trigger] value@[j]),
        decreases value.len() - i,
    {
        let b = value[i];
        if !(b == 9 || (b >= 32 && b < 127)) {
            return false;
        }
        i += 1;
    }
    true
}

/// Takes in the reading of the signature from its decoded bytes: bytes
/// that are no signature are `InvalidSignature`.
pub fn signature_parsed(parsed: Option<ed25519_dalek::Signature>) -> (signature: Result<
    ed25519_dalek::Signature,
    DiscordSignatureVerificationFailure,
>)
    ensures
        signature == match parsed {
            Some(signature) => Ok::<ed25519_dalek::Signature, DiscordSignatureVerificationFailure>(
                signature,
            ),
            None => Err(DiscordSignatureVerificationFailure::InvalidSignature),
        },
{
    match parsed {
        Some(signature) => Ok(signature),
        None => Err(DiscordSignatureVerificationFailure::InvalidSignature),
    }
}

/// Takes in the check of the signature against the key: a signature that
/// the key does not accept is `InvalidSignature`.
pub fn signature_checked(accepted: bool) -> (verified: Result<(), DiscordSignatureVerificationFailure>)
    ensures
        verified == if accepted {
            Ok::<(), DiscordSignatureVerificationFailure>(())
        } else {
            Err(DiscordSignatureVerificationFailure::InvalidSignature)
        },
{
    if accepted {
        Ok(())
    } else {
        Err(DiscordSignatureVerificationFailure::InvalidSignature)
    }
}

/// What [`get_signature`] answers for a signature header.
pub open spec fn signature_of(header: Option<Vec<u8>>) -> Result<
    ed25519_dalek::Signature,
    DiscordSignatureVerificationFailure,
> {
    match header {
        None => Err(DiscordSignatureVerificationFailure::MissingHeader(SIGNATURE_HEADER)),
        Some(value) => if !is_visible_ascii(value@) {
            Err(DiscordSignatureVerificationFailure::BadFormat(NOT_UTF8))
        } else if !is_hex(value@) {
            Err(DiscordSignatureVerificationFailure::BadFormat(NOT_HEX))
        } else if !signature_form(hex_decoded(value@)) {
            Err(DiscordSignatureVerificationFailure::InvalidSignature)
        } else {
            Ok(parsed_signature(hex_decoded(value@))->0)
        },
    }
}

/// Reads the signature from its header.
///
/// A missing header is `MissingHeader`. A value that is not text, or not an
/// even number of hex digits, is `BadFormat`. Hex that does not have the
/// form of a signature is `InvalidSignature`.
pub fn get_signature(headers: &SignatureHeaders) -> (signature: Result<
    ed25519_dalek::Signature,
    DiscordSignatureVerificationFailure,
>)
    ensures
        signature == signature_of(headers.signature),
{
    match &headers.signature {
        None => Err(DiscordSignatureVerificationFailure::MissingHeader(SIGNATURE_HEADER)),
        Some(value) => {
            if !header_is_text(value.as_slice()) {
                return Err(DiscordSignatureVerificationFailure::BadFormat(NOT_UTF8));
            }
            match hex_decode(value.as_slice()) {
                None => Err(DiscordSignatureVerificationFailure::BadFormat(NOT_HEX)),
                Some(bytes) => signature_parsed(signature_from_bytes(bytes.as_slice())),
            }
        },
    }
}

/// Reads the bytes of the timestamp header; a missing header is
/// `MissingHeader`.
pub fn get_timestamp_bytes(headers: &SignatureHeaders) -> (timestamp: Result<
    &Vec<u8>,
    DiscordSignatureVerificationFailure,
>)
    ensures
        match headers.timestamp {
            Some(value) => timestamp == Ok::<&Vec<u8>, DiscordSignatureVerificationFailure>(&value),
            None => timestamp == Err::<&Vec<u8>, DiscordSignatureVerificationFailure>(
                DiscordSignatureVerificationFailure::MissingHeader(TIMESTAMP_HEADER),
            ),
        },
{
    match &headers.timestamp {
        Some(value) => Ok(value),
        None => Err(DiscordSignatureVerificationFailure::MissingHeader(TIMESTAMP_HEADER)),
    }
}

/// Whether `signature` is `public_key`'s signature of the timestamp followed
/// by the body.
pub fn valid_discord_signature(
    public_key: &ed25519_dalek::PublicKey,
    signature: &ed25519_dalek::Signature,
    timestamp_bytes: &[u8],
    body_bytes: &[u8],
) -> (valid: bool)
    ensures
        valid == signature_accepted(*public_key, timestamp_bytes@ + body_bytes@, *signature),
{
    let mut message: Vec<u8> = Vec::new();
    message.extend_from_slice(timestamp_bytes);
    message.extend_from_slice(body_bytes);
    assert(message@ =~= timestamp_bytes@ + body_bytes@);
    verify(public_key, message.as_slice(), signature)
}

/// What the verification answers once the key is known.
pub open spec fn verification_with(
    public_key: ed25519_dalek::PublicKey,
    headers: SignatureHeaders,
    body: Seq<u8>,
) -> Result<(), DiscordSignatureVerificationFailure> {
    match signature_of(headers.signature) {
        Err(failure) => Err(failure),
        Ok(signature) => match headers.timestamp {
            None => Err(DiscordSignatureVerificationFailure::MissingHeader(TIMESTAMP_HEADER)),
            Some(timestamp) => if signature_accepted(public_key, timestamp@ + body, signature) {
                Ok(())
            } else {
                Err(DiscordSignatureVerificationFailure::InvalidSignature)
            },
        },
    }
}

/// What [`verify_discord_signature`] answers.
pub open spec fn verification(
    public_key: Option<DiscordPublicKey>,
    headers: SignatureHeaders,
    body: Seq<u8>,
) -> Result<(), DiscordSignatureVerificationFailure> {
    match public_key {
        None => Err(DiscordSignatureVerificationFailure::MissingPublicKey),
        Some(public_key) => verification_with(public_key.key(), headers, body),
    }
}

/// Verifies the signature of a request, given the key that the request
/// carries, the two signature headers and the body.
///
/// The checks come in this order, and the first that fails decides: the key
/// is there; the signature header is there, is text, is hex and has the form
/// of a signature; the timestamp header is there; the signature is the
/// key's signature of timestamp and body.
pub fn verify_discord_signature(
    public_key: Option<&DiscordPublicKey>,
    headers: &SignatureHeaders,
    body: &[u8],
) -> (verified: Result<(), DiscordSignatureVerificationFailure>)
    ensures
        verified == verification(
            match public_key {
                Some(key) => Some(*key),
                None => None,
            },
            *headers,
            body@,
        ),
{
    let public_key = match public_key {
        Some(public_key) => public_key,
        None => {
            return Err(DiscordSignatureVerificationFailure::MissingPublicKey);
        },
    };
    let signature = match get_signature(headers) {
        Ok(signature) => signature,
        Err(failure) => {
            return Err(failure);
        },
    };
    let timestamp_bytes = match get_timestamp_bytes(headers) {
        Ok(timestamp_bytes) => timestamp_bytes,
        Err(failure) => {
            return Err(failure);
        },
    };
    signature_checked(
        valid_discord_signature(public_key.deref(), &signature, timestamp_bytes.as_slice(), body),
    )
}

/// What the verifying service does with a request.
pub enum Verified<E> {
    /// The signature is good: the request goes to the inner service.
    Forward,
    /// The signature is not good: this error is the answer, and the inner
    /// service is not called.
    Reject(DiscordSignatureVerificationLayerError<E>),
}

/// Decides what the verifying service does with a request: it forwards one
/// whose signature is good, and answers any other with the failure.
pub fn call<E>(
    public_key: Option<&DiscordPublicKey>,
    headers: &SignatureHeaders,
    body: &[u8],
) -> (decision: Verified<E>)
    ensures
        match verification(
            match public_key {
                Some(key) => Some(*key),
                None => None,
            },
            *headers,
            body@,
        ) {
            Ok(()) => decision is Forward,
            Err(failure) => decision == Verified::<E>::Reject(
                DiscordSignatureVerificationLayerError::DiscordSignatureVerificationFailure(failure),
            ),
        },
{
    match verify_discord_signature(public_key, headers, body) {
        Ok(()) => Verified::Forward,
        Err(failure) => Verified::Reject(
            DiscordSignatureVerificationLayerError::DiscordSignatureVerificationFailure(failure),
        ),
    }
}

} // verus!
