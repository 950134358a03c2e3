//! The errors of the library: how a request can fail, and how a response
//! body can fail to decode.

use vstd::prelude::*;

verus! {

/// The error of base64's decoders, carried opaquely as the cause of a
/// base64 decoding failure.
#[verifier::external_type_specification]
#[verifier::external_body]
pub struct ExBase64DecodeError(base64::DecodeError);

/// The error of `String::from_utf8`, carried opaquely as the cause of a
/// UTF-8 decoding failure.
#[verifier::external_type_specification]
#[verifier::external_body]
pub struct ExFromUtf8Error(std::string::FromUtf8Error);

/// Why a response body could not be turned into the library's values.
#[derive(Debug)]
pub enum DecodingError {
    /// A text field is not valid standard base64.
    Base64(base64::DecodeError),
    /// A base64 text field decodes to bytes that are not UTF-8.
    Utf8(std::string::FromUtf8Error),
    /// A response code outside `0..=4`; the offending value is kept.
    ResponseCode(u64),
    /// A question kind that is neither `boolean` nor `multiple`.
    UnknownKind(String),
    /// A difficulty that is not `easy`, `medium` or `hard`.
    UnknownDifficulty(String),
    /// A statistics key that is not the id of a category in `9..=32`.
    CategoryKey(String),
    /// The body is not the JSON the request expects; the parser's message is kept.
    Json(String),
}

/// The errors that can happen when making a request.
#[derive(Debug)]
pub enum HttpError {
    /// The transport failed before any status was received.
    Request(String),
    /// A status other than 200 and below 500, with the body's text.
    UnsuccessfulRequest(u16, String),
    /// A status of 500 or above, with the body's text.
    InternalServerError(String),
    /// An option that breaks a constraint, refused before any request is made.
    InvalidOption(String),
    /// A 200 response whose body could not be decoded.
    Decode(DecodingError),
}

} // verus!
