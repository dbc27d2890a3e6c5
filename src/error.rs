//! The errors that the library and its callers report.

use vstd::prelude::*;

verus! {

/// A transport or protocol failure reported by the HTTP client.
#[verifier::external_type_specification]
#[verifier::external_body]
pub struct ExReqwestError(reqwest::Error);

/// A header value that the HTTP client refused.
#[verifier::external_type_specification]
#[verifier::external_body]
pub struct ExInvalidHeaderValue(reqwest::header::InvalidHeaderValue);

/// A base64 payload that could not be decoded.
#[verifier::external_type_specification]
#[verifier::external_body]
pub struct ExDecodeError(base64::DecodeError);

/// Everything that can go wrong while building a request, talking to the
/// service, or decoding the image it returns.
#[derive(Debug)]
pub enum DiffusionError {
    /// The HTTP client failed (connection, TLS, body decoding, ...).
    ReqwestError(reqwest::Error),
    /// The authorization header could not be built from the key.
    InvalidHeader(reqwest::header::InvalidHeaderValue),
    /// The service has not finished the image yet.
    ImageStatusNotReady,
    /// The status endpoint answered with a code it never documents.
    UnknownHttpError(u16),
    /// The image was not ready before the deadline.
    TimeExpired,
    /// A step count outside 50, 100, 150 and 200.
    InvalidStepAmount,
    /// A model name that the service does not offer.
    InvalidModel,
    /// A size name that the service does not offer.
    InvalidSize,
    /// An orientation name that the service does not offer.
    InvalidOrientation,
    /// The image payload holds no comma before its base64 data.
    InvalidRawImage,
    /// The base64 data of the image payload is malformed.
    Base64Decode(base64::DecodeError),
}

} // verus!
