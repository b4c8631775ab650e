use vstd::prelude::*;
use vstd::string::StringExecFns;

use super::{endpoint, endpoint_url, is_success_status};

verus! {

/// Response from discord when the login is successful
#[derive(Debug)]
pub struct LoginResponse {
    pub user_id: String,
    pub token: String,
}

/// Response from discord when the login requires a 2FA
#[derive(Debug)]
pub struct Login2FA {
    pub user_id: String,
    pub ticket: String,
    pub mfa: bool,
    pub sms: bool,
    pub backup: bool,
    pub totp: bool,
    pub webauthn: Option<String>,
}

/// Represents the state of the login
#[derive(Debug)]
pub enum LoginResult {
    Authenticated(LoginResponse),
    Requires2FA(Login2FA),
}

/// Failures of the login protocol.
#[derive(Debug)]
pub enum LoginError {
    /// The credentials were refused (bad password or unknown login alike).
    UserLoginFailed,
    /// The one-time code was refused; it is kept for display.
    InvalidTOTP(String),
    /// The body did not have any of the expected shapes.
    Serde(serde_json::Error),
    /// The request itself failed.
    Reqwest(reqwest::Error),
}

/// What the decoding of a successful primary response leads to.
#[derive(Debug)]
pub enum PrimaryStep {
    /// The outcome is known.
    Finished(Result<LoginResult, LoginError>),
    /// The body is not a completed session: decode it as a challenge.
    DecodeChallenge,
}

pub const LOGIN_PATH: &'static str = "/auth/login";

pub const TOTP_PATH: &'static str = "/auth/mfa/totp";

/// A string written as a JSON string literal, quotes and escapes included.
pub uninterp spec fn json_string_of(s: Seq<char>) -> Seq<char>;

/// Relies on serde_json::to_string on a `str`: the JSON string literal that
/// holds `s`.
#[verifier::external_body]
fn json_string(s: &str) -> (r: Result<String, serde_json::Error>)
    ensures
        r matches Ok(q) ==> q@ == json_string_of(s@),
{
    serde_json::to_string(s)
}

/// The JSON object with two members whose values are already encoded.
pub open spec fn json_object2(k1: Seq<char>, v1: Seq<char>, k2: Seq<char>, v2: Seq<char>) -> Seq<
    char,
> {
    "{\""@ + k1 + "\":"@ + v1 + ",\""@ + k2 + "\":"@ + v2 + "}"@
}

/// The body of a primary login, from the encoded login and password.
pub open spec fn login_body_of(login_json: Seq<char>, password_json: Seq<char>) -> Seq<char> {
    json_object2("login"@, login_json, "password"@, password_json)
}

/// The body of a one-time code submission, from the encoded code and ticket.
pub open spec fn totp_body_of(code_json: Seq<char>, ticket_json: Seq<char>) -> Seq<char> {
    json_object2("code"@, code_json, "ticket"@, ticket_json)
}

/// Writes a JSON object of two members from encoded values.
pub fn json_object2_from(k1: &str, v1: &str, k2: &str, v2: &str) -> (r: String)
    ensures
        r@ == json_object2(k1@, v1@, k2@, v2@),
{
    let mut s = String::from_str("{\"");
    s.append(k1);
    s.append("\":");
    s.append(v1);
    s.append(",\"");
    s.append(k2);
    s.append("\":");
    s.append(v2);
    s.append("}");
    s
}

/// The JSON body of a primary login.
pub fn login_body(login: &str, password: &str) -> (r: Result<String, LoginError>)
    ensures
        r matches Ok(b) ==> b@ == login_body_of(json_string_of(login@), json_string_of(password@)),
        r matches Err(e) ==> e is Serde,
{
    let l = match json_string(login) {
        Ok(q) => q,
        Err(e) => return Err(LoginError::Serde(e)),
    };
    let p = match json_string(password) {
        Ok(q) => q,
        Err(e) => return Err(LoginError::Serde(e)),
    };
    Ok(json_object2_from("login", l.as_str(), "password", p.as_str()))
}

/// The JSON body that submits `code` against the challenge's ticket.
pub fn totp_body(code: &str, login_2fa: &Login2FA) -> (r: Result<String, LoginError>)
    ensures
        r matches Ok(b) ==> b@ == totp_body_of(
            json_string_of(code@),
            json_string_of(login_2fa.ticket@),
        ),
        r matches Err(e) ==> e is Serde,
{
    let c = match json_string(code) {
        Ok(q) => q,
        Err(e) => return Err(LoginError::Serde(e)),
    };
    let t = match json_string(login_2fa.ticket.as_str()) {
        Ok(q) => q,
        Err(e) => return Err(LoginError::Serde(e)),
    };
    Ok(json_object2_from("code", c.as_str(), "ticket", t.as_str()))
}

/// The URL of the primary login.
pub fn login_url() -> (r: String)
    ensures
        r@ == endpoint_url(LOGIN_PATH@),
{
    endpoint(LOGIN_PATH)
}

/// The URL of the one-time code submission.
pub fn totp_url() -> (r: String)
    ensures
        r@ == endpoint_url(TOTP_PATH@),
{
    endpoint(TOTP_PATH)
}

/// What the status of the primary response decides: any status outside the
/// success class is a failed login, whatever the body holds; on success the
/// body is decoded.
pub fn check_login_status(status: u16) -> (r: Result<(), LoginError>)
    ensures
        r is Ok <==> is_success_status(status),
        r is Err ==> r matches Err(LoginError::UserLoginFailed),
{
    if 200 <= status && status <= 299 {
        Ok(())
    } else {
        Err(LoginError::UserLoginFailed)
    }
}

/// The body decoded as a completed session (`None` where its shape is not
/// that one). A session is the outcome at once, and no other decoding follows.
pub fn after_session_decode(decoded: Option<LoginResponse>) -> (r: PrimaryStep)
    ensures
        match decoded {
            Some(s) => r == PrimaryStep::Finished(Ok(LoginResult::Authenticated(s))),
            None => r is DecodeChallenge,
        },
{
    match decoded {
        Some(s) => PrimaryStep::Finished(Ok(LoginResult::Authenticated(s))),
        None => PrimaryStep::DecodeChallenge,
    }
}

/// The body decoded as a challenge, once the session shape did not fit: the
/// challenge is carried as decoded, and a body of neither shape is malformed.
pub fn after_challenge_decode(decoded: Result<Login2FA, serde_json::Error>) -> (r: Result<
    LoginResult,
    LoginError,
>)
    ensures
        match decoded {
            Ok(c) => r == Ok::<LoginResult, LoginError>(LoginResult::Requires2FA(c)),
            Err(e) => r == Err::<LoginResult, LoginError>(LoginError::Serde(e)),
        },
{
    match decoded {
        Ok(c) => Ok(LoginResult::Requires2FA(c)),
        Err(e) => Err(LoginError::Serde(e)),
    }
}

/// What the status of a one-time code submission decides: any status outside
/// the success class refuses the code, which the error echoes; the challenge
/// is only borrowed and stays usable for another code.
pub fn check_totp_status(status: u16, code: &str) -> (r: Result<(), LoginError>)
    ensures
        r is Ok <==> is_success_status(status),
        r is Err ==> (r matches Err(LoginError::InvalidTOTP(c)) && c@ == code@),
{
    if 200 <= status && status <= 299 {
        Ok(())
    } else {
        Err(LoginError::InvalidTOTP(String::from_str(code)))
    }
}

/// The session that an accepted code yields: the challenge's user id with the
/// token of the response.
pub fn totp_session(login_2fa: &Login2FA, token: Result<String, serde_json::Error>) -> (r: Result<
    LoginResponse,
    LoginError,
>)
    ensures
        match token {
            Ok(t) => (r matches Ok(s) && s.user_id == login_2fa.user_id && s.token == t),
            Err(e) => r == Err::<LoginResponse, LoginError>(LoginError::Serde(e)),
        },
{
    match token {
        Ok(t) => Ok(LoginResponse { user_id: login_2fa.user_id.clone(), token: t }),
        Err(e) => Err(LoginError::Serde(e)),
    }
}

/// Whether a challenge can be answered here: only a time-based code is
/// supported.
pub fn can_answer(login_2fa: &Login2FA) -> (r: bool)
    ensures
        r == login_2fa.totp,
{
    login_2fa.totp
}

/// A session given from outside: used only where both its token and its user
/// id are given.
pub fn preset_session(token: Option<String>, user_id: Option<String>) -> (r: Option<LoginResponse>)
    ensures
        r is Some <==> (token is Some && user_id is Some),
        r matches Some(s) ==> Some(s.token) == token && Some(s.user_id) == user_id,
{
    match (token, user_id) {
        (Some(token), Some(user_id)) => Some(LoginResponse { user_id, token }),
        _ => None,
    }
}

} // verus!
