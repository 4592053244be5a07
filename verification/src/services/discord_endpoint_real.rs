//! The error of the endpoint that verifies signatures itself.

use crate::layers::verify_signature_real::DiscordVerificationServiceError;
use vstd::prelude::*;

verus! {

/// An error that can be produced during the processing of a call to the
/// Discord endpoint.
#[derive(Debug)]
pub enum DiscordEndpointError {
    /// An error while attempting to verify the signature
    DiscordVerificationService(DiscordVerificationServiceError),
}

} // verus!
