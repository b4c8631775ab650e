use vstd::prelude::*;
use vstd::string::StringExecFns;

pub mod guilds;
pub mod login;

verus! {

/// Base URL of every request.
pub const API_ENDPOINT: &'static str = "https://discord.com/api/v10";

/// The full URL of an API path.
pub open spec fn endpoint_url(path: Seq<char>) -> Seq<char> {
    API_ENDPOINT@ + path
}

/// An HTTP status in the success class (2xx).
pub open spec fn is_success_status(status: u16) -> bool {
    200 <= status && status <= 299
}

/// An HTTP status in the client-error class (4xx).
pub open spec fn is_client_error_status(status: u16) -> bool {
    400 <= status && status <= 499
}

/// Creates url for a given endpoint
pub fn endpoint(path: &str) -> (r: String)
    ensures
        r@ == endpoint_url(path@),
{
    let base = String::from_str(API_ENDPOINT);
    base.concat(path)
}

/// The JSON decoder's error.
#[verifier::external_type_specification]
#[verifier::external_body]
pub struct ExJsonError(serde_json::Error);

/// The HTTP client's error (connection, timeout, body read).
#[verifier::external_type_specification]
#[verifier::external_body]
pub struct ExTransportError(reqwest::Error);

/// Failures of the API calls.
#[derive(Debug)]
pub enum ApiError {
    /// The token was refused by a listing endpoint.
    Unauthorized,
    /// The credentials were refused.
    UserLoginFailed,
    /// The one-time code was refused; it is kept for display.
    InvalidTOTP(String),
    /// A response body did not have the expected shape.
    Serde(serde_json::Error),
    /// The request itself failed.
    Reqwest(reqwest::Error),
}

} // verus!
