use http::header::InvalidHeaderValue;
use reqwest::Error as TransportError;
use serde_json::Error as DecodeError;
use vstd::prelude::*;

verus! {

/// Why a call against the API failed.
#[derive(Debug)]
#[allow(inconsistent_fields)]
pub enum Error {
    /// The transport could not complete the exchange (DNS, connection, TLS).
    Client { source: TransportError },
    /// The answer's body does not have the expected shape.
    Deserialize { source: DecodeError },
    /// The access token cannot stand in an `Authorization` header.
    HeaderValue { source: InvalidHeaderValue },
    /// A method name that the API is never called with.
    UnsupportedRequest { method: String },
    /// The server answered with a status outside 200..=299.
    BadRequest { status: u16 },
}

/// Declares reqwest's error, which a failed exchange carries.
#[verifier::external_type_specification]
#[verifier::external_body]
pub struct ExTransportError(TransportError);

/// Declares serde_json's error, which a failed decode carries.
#[verifier::external_type_specification]
#[verifier::external_body]
pub struct ExDecodeError(DecodeError);

/// Declares http's error for a text that no header value can hold.
#[verifier::external_type_specification]
#[verifier::external_body]
pub struct ExInvalidHeaderValue(InvalidHeaderValue);

} // verus!
