use discord_vc::discord::login::{
    after_challenge_decode, after_session_decode, can_answer, check_login_status,
    check_totp_status, json_object2_from, login_body, login_url, preset_session, totp_body,
    totp_session, totp_url, Login2FA, LoginError, LoginResponse, LoginResult, PrimaryStep,
};

fn challenge(user_id: &str, ticket: &str, totp: bool) -> Login2FA {
    Login2FA {
        user_id: user_id.to_string(),
        ticket: ticket.to_string(),
        mfa: true,
        sms: false,
        backup: false,
        totp,
        webauthn: None,
    }
}

fn json_error() -> serde_json::Error {
    serde_json::from_str::<serde_json::Value>("{").unwrap_err()
}

#[test]
fn primary_login_completed_session() {
    assert!(check_login_status(200).is_ok());
    let decoded = Some(LoginResponse { user_id: "1".to_string(), token: "tok".to_string() });
    match after_session_decode(decoded) {
        PrimaryStep::Finished(Ok(LoginResult::Authenticated(s))) => {
            assert_eq!(s.user_id, "1");
            assert_eq!(s.token, "tok");
        }
        other => panic!("unexpected {:?}", other),
    }
}

#[test]
fn primary_login_challenge_then_code() {
    assert!(check_login_status(200).is_ok());
    assert!(matches!(after_session_decode(None), PrimaryStep::DecodeChallenge));
    let c = match after_challenge_decode(Ok(challenge("1", "tk", true))) {
        Ok(LoginResult::Requires2FA(c)) => c,
        other => panic!("unexpected {:?}", other),
    };
    assert_eq!(c.ticket, "tk");
    assert!(c.mfa && c.totp && !c.sms && !c.backup);
    assert!(can_answer(&c));
    assert!(check_totp_status(200, "123456").is_ok());
    let s = totp_session(&c, Ok("tok2".to_string())).unwrap();
    assert_eq!(s.user_id, "1");
    assert_eq!(s.token, "tok2");
}

#[test]
fn primary_login_failure_statuses() {
    for status in [100u16, 199, 300, 301, 400, 401, 403, 404, 429, 500, 503] {
        assert!(matches!(check_login_status(status), Err(LoginError::UserLoginFailed)));
    }
    for status in [200u16, 201, 204, 299] {
        assert!(check_login_status(status).is_ok());
    }
}

#[test]
fn primary_login_neither_shape_is_malformed() {
    assert!(matches!(after_session_decode(None), PrimaryStep::DecodeChallenge));
    assert!(matches!(after_challenge_decode(Err(json_error())), Err(LoginError::Serde(_))));
}

#[test]
fn wrong_code_is_echoed_and_ticket_reused() {
    let c = challenge("7", "tk", true);
    match check_totp_status(400, "000000") {
        Err(LoginError::InvalidTOTP(code)) => assert_eq!(code, "000000"),
        other => panic!("unexpected {:?}", other),
    }
    assert_eq!(c.ticket, "tk");
    let first = totp_body("000000", &c).unwrap();
    let second = totp_body("654321", &c).unwrap();
    assert_eq!(first, "{\"code\":\"000000\",\"ticket\":\"tk\"}");
    assert_eq!(second, "{\"code\":\"654321\",\"ticket\":\"tk\"}");
    assert!(check_totp_status(200, "654321").is_ok());
    let s = totp_session(&c, Ok("t".to_string())).unwrap();
    assert_eq!(s.user_id, "7");
}

#[test]
fn code_session_keeps_user_id() {
    let c = challenge("42", "tk", true);
    let s = totp_session(&c, Ok("new".to_string())).unwrap();
    assert_eq!(s.user_id, "42");
    assert_eq!(s.token, "new");
    assert!(matches!(totp_session(&c, Err(json_error())), Err(LoginError::Serde(_))));
}

#[test]
fn request_bodies_are_json() {
    assert_eq!(login_body("a", "b").unwrap(), "{\"login\":\"a\",\"password\":\"b\"}");
    assert_eq!(
        login_body("q\"x", "p\\").unwrap(),
        "{\"login\":\"q\\\"x\",\"password\":\"p\\\\\"}"
    );
    assert_eq!(login_body("", "").unwrap(), "{\"login\":\"\",\"password\":\"\"}");
    assert_eq!(json_object2_from("k", "1", "m", "true"), "{\"k\":1,\"m\":true}");
}

#[test]
fn login_urls() {
    assert_eq!(login_url(), "https://discord.com/api/v10/auth/login");
    assert_eq!(totp_url(), "https://discord.com/api/v10/auth/mfa/totp");
}

#[test]
fn challenge_without_totp_cannot_be_answered() {
    assert!(!can_answer(&challenge("1", "tk", false)));
}

#[test]
fn preset_session_needs_both() {
    let s = preset_session(Some("tok".to_string()), Some("9".to_string())).unwrap();
    assert_eq!(s.token, "tok");
    assert_eq!(s.user_id, "9");
    assert!(preset_session(Some("tok".to_string()), None).is_none());
    assert!(preset_session(None, Some("9".to_string())).is_none());
    assert!(preset_session(None, None).is_none());
}
