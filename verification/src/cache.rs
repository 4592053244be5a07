//! Memoizes a handler's responses in a store of bytes, read first and written
//! after a miss.
//!
//! The store, the handler and the encoding of requests and responses belong
//! to the caller. What is decided between two of their answers is here: see
//! [`aside`].

use vstd::prelude::*;

pub mod aside;
pub mod batch;
pub mod key;

verus! {

/// `rmp_serde::encode::Error`: why a value could not be encoded.
#[verifier::external_type_specification]
#[verifier::external_body]
pub struct ExEncodeError(rmp_serde::encode::Error);

/// `rmp_serde::decode::Error`: why bytes could not be decoded.
#[verifier::external_type_specification]
#[verifier::external_body]
pub struct ExDecodeError(rmp_serde::decode::Error);

/// The error that might be returned by a service that has been wrapped in a
/// cache-aside layer. `E` is the error of the store, `I` that of the wrapped
/// service.
#[derive(Debug)]
pub enum CacheServiceError<E, I> {
    /// The request's key, or its response, could not be serialized
    SerializeError(rmp_serde::encode::Error),
    /// The cache failed to produce a response
    CacheError(E),
    /// The response could not be deserialized
    DeserializeError(rmp_serde::decode::Error),
    /// The inner service was queried and failed to respond
    InnerError(I),
}

/// Trait that indicates a query is cacheable, and what key
/// should be used to cache it.
pub trait CacheableQuery {
    /// The type of the key.
    type Key;

    /// Names the shape of the query. Queries of different shapes that share
    /// a store must have different tags: the tag is what keeps their
    /// entries apart where their keys are the same.
    fn cache_tag() -> &'static str;

    /// Returns the key for this request.
    fn cache_key(&self) -> Self::Key;
}

} // verus!
