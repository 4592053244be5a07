//! Takes the body of a request as AWS Lambda delivers it to the bytes that
//! the other layers read.

use vstd::prelude::*;
use vstd::utf8::encode_utf8;

verus! {

/// The body of a request as AWS Lambda delivers it.
#[derive(Debug, Clone, PartialEq, Eq)]
pub enum LambdaBody {
    /// An empty body
    Empty,
    /// A body containing string data
    Text(String),
    /// A body containing binary data
    Binary(Vec<u8>),
}

/// The bytes of a body: none for an empty body, the UTF-8 encoding of a
/// text, the data of a binary body.
pub open spec fn body_bytes(body: LambdaBody) -> Seq<u8> {
    match body {
        LambdaBody::Empty => Seq::empty(),
        LambdaBody::Text(text) => encode_utf8(text@),
        LambdaBody::Binary(data) => data@,
    }
}

/// The bytes of a body, for the layers that read bytes: none for an empty
/// body, the UTF-8 encoding of a text, the data of a binary body.
pub fn lambda_compatibility_layer(body: LambdaBody) -> (bytes: Vec<u8>)
    ensures
        bytes@ == body_bytes(body),
{
    match body {
        LambdaBody::Empty => Vec::new(),
        LambdaBody::Text(text) => text.as_str().as_bytes_vec(),
        LambdaBody::Binary(data) => data,
    }
}

} // verus!
