//! A layer that reads the whole body of a request before the request goes to
//! the inner service.

use vstd::prelude::*;

verus! {

/// An error which might be returned by the the body-to-bytes service. `B` is
/// the error of the body, `I` that of the inner service.
#[derive(Debug)]
pub enum BodyToBytesServiceError<B, I> {
    /// An error when trying to convert the request body into a Bytes object.
    ToBytesError(B),
    /// An error returned by the inner service (after a successful Bytes conversion).
    InnerError(I),
}

/// Takes in the reading of the body: what was read goes on to the inner
/// service, a failure to read is the answer, as `ToBytesError`.
pub fn body_to_bytes<T, B, I>(read: Result<T, B>) -> (request: Result<T, BodyToBytesServiceError<B, I>>)
    ensures
        request == match read {
            Ok(bytes) => Ok::<T, BodyToBytesServiceError<B, I>>(bytes),
            Err(error) => Err(BodyToBytesServiceError::ToBytesError(error)),
        },
{
    match read {
        Ok(bytes) => Ok(bytes),
        Err(error) => Err(BodyToBytesServiceError::ToBytesError(error)),
    }
}

/// Takes in the inner service's answer, which is also its failure to get
/// ready: a response passes through, an error is `InnerError`.
pub fn body_to_bytes_layer_fn<R, B, I>(answer: Result<R, I>) -> (response: Result<
    R,
    BodyToBytesServiceError<B, I>,
>)
    ensures
        response == match answer {
            Ok(response) => Ok::<R, BodyToBytesServiceError<B, I>>(response),
            Err(error) => Err(BodyToBytesServiceError::InnerError(error)),
        },
{
    match answer {
        Ok(response) => Ok(response),
        Err(error) => Err(BodyToBytesServiceError::InnerError(error)),
    }
}

} // verus!
