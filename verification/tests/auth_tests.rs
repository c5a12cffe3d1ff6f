use s3em::auth::{
    after_verification, authorize, bearer_token, check_login, login_response, login_response_at,
    login_subject_name, AuthError, AuthStep, JwtClaims,
    LoginRequest,
};

#[test]
fn claims_expire_a_day_later() {
    let c = JwtClaims::issue("admin", 1_700_000_000);
    assert_eq!(c.sub, "admin");
    assert_eq!(c.iat, 1_700_000_000);
    assert_eq!(c.exp, 1_700_086_400);
    let now = JwtClaims::issue_now("admin");
    assert_eq!(now.sub, "admin");
    assert_eq!(now.exp - now.iat, 86400);
    assert!(now.iat > 1_600_000_000);
}

#[test]
fn bearer_extraction() {
    assert_eq!(bearer_token(Some("Bearer abc.def")), Some("abc.def"));
    assert_eq!(bearer_token(Some("bearer abc")), None);
    assert_eq!(bearer_token(Some("Basic abc")), None);
    assert_eq!(bearer_token(None), None);
}

#[test]
fn guard_decisions() {
    assert!(matches!(authorize(None, Some("master"), "master"), AuthStep::Allow));
    assert!(matches!(authorize(Some("Bearer t"), Some("master"), "master"), AuthStep::Allow));
    assert!(matches!(
        authorize(None, Some("wrong"), "master"),
        AuthStep::Reject(AuthError::MissingAuthorization)
    ));
    assert!(matches!(authorize(None, None, "master"), AuthStep::Reject(AuthError::MissingAuthorization)));
    assert!(matches!(
        authorize(Some("Token t"), None, "master"),
        AuthStep::Reject(AuthError::MissingAuthorization)
    ));
    match authorize(Some("Bearer tok"), Some("wrong"), "master") {
        AuthStep::Verify(t) => assert_eq!(t, "tok"),
        other => panic!("{:?}", other),
    }
    assert!(matches!(after_verification(true), AuthStep::Allow));
    assert!(matches!(after_verification(false), AuthStep::Reject(AuthError::InvalidToken)));
}

#[test]
fn login_checks_the_master_key() {
    assert!(check_login(&LoginRequest { api_key: "k".to_string() }, "k").is_ok());
    assert!(matches!(
        check_login(&LoginRequest { api_key: "x".to_string() }, "k"),
        Err(AuthError::InvalidApiKey)
    ));
    let ok = login_response(Ok("tok".to_string())).unwrap();
    assert_eq!(ok.token, "tok");
    assert!(ok.expires_at.contains('T'));
    match login_response(Err("boom".to_string())) {
        Err(e) => {
            assert_eq!(e.status(), 500);
            assert_eq!(e.message(), "Token generation failed: boom");
        },
        Ok(_) => panic!("expected failure"),
    }
}

#[test]
fn login_expiry_is_a_day_later() {
    assert_eq!(login_subject_name(), "admin");
    let r = login_response_at(Ok("tok".to_string()), 0, 0).unwrap();
    assert_eq!(r.token, "tok");
    assert_eq!(r.expires_at, "1970-01-02T00:00:00+00:00");
    let r = login_response_at(Ok("t".to_string()), 1_700_000_000, 500_000_000).unwrap();
    assert_eq!(r.expires_at, "2023-11-15T22:13:20.500+00:00");
    let r = login_response_at(Ok("t".to_string()), 8_210_266_876_799, 0).unwrap();
    assert_eq!(r.expires_at, "+262142-12-31T23:59:59+00:00");
    match login_response_at(Err("boom".to_string()), 0, 0) {
        Err(AuthError::TokenGeneration(m)) => assert_eq!(m, "boom"),
        other => panic!("{:?}", other),
    }
    let now = login_response(Ok("t".to_string())).unwrap();
    let expiry = chrono::DateTime::parse_from_rfc3339(&now.expires_at).unwrap();
    let delta = expiry.timestamp() - chrono::Utc::now().timestamp();
    assert!((86390..=86400).contains(&delta));
}

#[test]
fn refusal_texts() {
    assert_eq!(AuthError::MissingAuthorization.message(), "Missing Authorization header");
    assert_eq!(AuthError::InvalidToken.message(), "Invalid or expired token");
    assert_eq!(AuthError::InvalidApiKey.message(), "Invalid API key");
    assert_eq!(AuthError::MissingAuthorization.status(), 401);
    assert_eq!(AuthError::InvalidToken.status(), 401);
    assert_eq!(AuthError::InvalidApiKey.status(), 401);
}
