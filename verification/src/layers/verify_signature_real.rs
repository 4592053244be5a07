//! Verifies Discord's signature on a request whose body is still to be
//! read, and answers a request that fails with 401 instead of an error.

use crate::layers::verify_signature::{
    get_signature, get_timestamp_bytes, valid_discord_signature, verification_with,
    SignatureHeaders,
};
use vstd::prelude::*;

verus! {

/// `hyper::Error`: why the body of a request could not be read.
#[verifier::external_type_specification]
#[verifier::external_body]
pub struct ExHyperError(hyper::Error);

/// The status that answers a request whose signature is missing or wrong.
pub const UNAUTHORIZED: u16 = 401;

/// What is said with that status.
pub const SIGNATURE_INVALID: &'static str = "signature invalid";

/// A layer which verifies the message signature using Discord's public key to
/// ensure it's authentic.
pub struct DiscordVerificationLayer {
    public_key: ed25519_dalek::PublicKey,
}

/// An error that can occur while attempting to verify Discord's signature.
/// This indicates that the signature could not be verified or falsified;
/// a falsified signature should not return an error.
#[derive(Debug)]
pub enum DiscordVerificationServiceError {
    /// An error while reading the bytes of the request.
    HyperError(hyper::Error),
}

/// A middleware service which verifies the signature on a request. If so
/// verified, it passes the request on to the next Service. If falsified, it
/// answers 401 UNAUTHORIZED with a short error object.
pub struct DiscordVerificationService<S> {
    public_key: ed25519_dalek::PublicKey,
    inner: S,
}

/// What the service does with a request.
pub enum Checked<'a> {
    /// The signature header carries a signature and the timestamp header is
    /// there: read the body, then ask [`DiscordVerificationService::call`].
    ReadBody { signature: ed25519_dalek::Signature, timestamp_bytes: &'a Vec<u8> },
    /// The request is answered with 401 and its body is not read.
    Unauthorized,
}

impl DiscordVerificationLayer {
    /// The key that requests are verified with.
    pub closed spec fn public_key(self) -> ed25519_dalek::PublicKey {
        self.public_key
    }

    /// Create a new Discord verification layer with Discord's public key
    pub fn new(public_key: ed25519_dalek::PublicKey) -> (layer: Self)
        ensures
            layer.public_key() == public_key,
    {
        Self { public_key }
    }

    /// Wraps `inner`.
    pub fn layer<S>(&self, inner: S) -> (service: DiscordVerificationService<S>)
        ensures
            service.inner() == inner,
            service.public_key() == self.public_key(),
    {
        DiscordVerificationService { public_key: self.public_key, inner }
    }
}

impl<S> DiscordVerificationService<S> {
    /// The key that requests are verified with.
    pub closed spec fn public_key(self) -> ed25519_dalek::PublicKey {
        self.public_key
    }

    /// The wrapped service.
    pub closed spec fn inner(self) -> S {
        self.inner
    }

    /// The wrapped service, to be polled and called.
    pub fn inner_mut(&mut self) -> (inner: &mut S)
        ensures
            *inner == old(self).inner(),
            final(self).inner() == *final(inner),
            final(self).public_key() == old(self).public_key(),
    {
        &mut self.inner
    }

    /// Reads the two signature headers, before the body is read. A request
    /// without a readable signature or without a timestamp is unauthorized.
    pub fn verify_discord_signature(headers: &SignatureHeaders) -> (checked: Checked<'_>)
        ensures
            match (crate::layers::verify_signature::signature_of(headers.signature), headers.timestamp) {
                (Ok(signature), Some(timestamp)) => checked == (Checked::ReadBody {
                    signature,
                    timestamp_bytes: &timestamp,
                }),
                _ => checked is Unauthorized,
            },
    {
        let signature = match get_signature(headers) {
            Ok(signature) => signature,
            Err(_) => {
                return Checked::Unauthorized;
            },
        };
        let timestamp_bytes = match get_timestamp_bytes(headers) {
            Ok(timestamp_bytes) => timestamp_bytes,
            Err(_) => {
                return Checked::Unauthorized;
            },
        };
        Checked::ReadBody { signature, timestamp_bytes }
    }

    /// Whether the request goes on to the inner service, now that its body
    /// is read: it does if the signature is the key's signature of
    /// timestamp and body, and is answered with 401 if not.
    pub fn call(&self, headers: &SignatureHeaders, body: &[u8]) -> (forward: bool)
        ensures
            forward == (verification_with(self.public_key(), *headers, body@) is Ok),
    {
        match Self::verify_discord_signature(headers) {
            Checked::ReadBody { signature, timestamp_bytes } => valid_discord_signature(
                &self.public_key,
                &signature,
                timestamp_bytes.as_slice(),
                body,
            ),
            Checked::Unauthorized => false,
        }
    }
}

} // verus!
