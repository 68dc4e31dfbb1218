use photobomber::auth::{
    decode_token, generate_tokens, AuthConfig, TokenClaims, TokenError, ACCESS_TOKEN_TYPE,
    REFRESH_TOKEN_TYPE,
};
use photobomber::cookies::{
    build_auth_cookies, build_auth_removal_cookies, extract_tokens, generate_and_set_auth_cookies,
    generate_and_set_auth_removal_cookies, is_admin_path, AuthError,
};
use photobomber::middleware::{AuthMiddleware, AuthStep};

fn config() -> AuthConfig {
    AuthConfig::from_settings(Some("mw-secret".to_string()), Some("15"), Some("60"))
}

fn claims_from_json(text: &str) -> Option<TokenClaims> {
    let v: serde_json::Value = serde_json::from_str(text).ok()?;
    Some(TokenClaims {
        exp: v.get("exp")?.as_i64()?,
        iat: v.get("iat")?.as_i64()?,
        iss: v.get("iss")?.as_str()?.to_string(),
        token_type: v.get("token_type")?.as_str()?.to_string(),
        sub: v.get("sub")?.as_str()?.to_string(),
    })
}

#[test]
fn auth_cookies_fields() {
    let cfg = config();
    let (a, r) = build_auth_cookies("AAA", "RRR", false, &cfg);
    assert_eq!(a.name, "access_token");
    assert_eq!(a.value, "AAA");
    assert_eq!(a.path, "/api/public");
    assert_eq!(r.path, "/api/public");
    assert!(a.secure && a.http_only && !a.removal);
    assert_eq!(a.max_age_minutes, 15);
    assert_eq!(r.name, "refresh_token");
    assert_eq!(r.value, "RRR");
    assert_eq!(r.max_age_minutes, 60);
}

#[test]
fn admin_cookies_are_scoped_to_admin_routes() {
    let cfg = config();
    let (a, r) = build_auth_cookies("AAA", "RRR", true, &cfg);
    assert_eq!(a.path, "/api/admin");
    assert_eq!(r.path, "/api/admin");
}

#[test]
fn admin_paths_are_recognised() {
    assert!(is_admin_path("/api/admin"));
    assert!(is_admin_path("/api/admin/location"));
    assert!(!is_admin_path("/api/public/location"));
    assert!(!is_admin_path("/api/adm"));
    assert!(!is_admin_path(""));
}

#[test]
fn removal_cookies_fields() {
    for (is_admin, path) in [(true, "/api/admin"), (false, "/api/public")] {
        let (a, r) = build_auth_removal_cookies(is_admin);
        assert_eq!(a.name, "access_token");
        assert_eq!(r.name, "refresh_token");
        for c in [a, r].iter() {
            assert_eq!(c.value, "");
            assert_eq!(c.path, path);
            assert_eq!(c.max_age_minutes, 0);
            assert!(c.removal && c.secure && c.http_only);
        }
    }
}

#[test]
fn logout_removes_the_cookies_of_both_sessions() {
    let cfg = config();
    let removals = generate_and_set_auth_removal_cookies();
    assert_eq!(removals.len(), 4);
    for is_admin in [true, false] {
        let (a, r) = generate_and_set_auth_cookies(if is_admin { 1 } else { 0 }, is_admin, &cfg).ok().unwrap();
        for session in [a, r].iter() {
            assert!(removals.iter().any(|c| c.removal && c.name == session.name && c.path == session.path));
        }
    }
}

#[test]
fn login_cookies_carry_fresh_tokens() {
    let cfg = config();
    let (a, r) = generate_and_set_auth_cookies(1, true, &cfg).ok().unwrap();
    assert_eq!(a.path, "/api/admin");
    assert_eq!(r.path, "/api/admin");
    let (pa, _) = generate_and_set_auth_cookies(0, false, &cfg).ok().unwrap();
    assert_eq!(pa.path, "/api/public");
    let ca = claims_from_json(&decode_token(&a.value, "mw-secret").ok().unwrap()).unwrap();
    let cr = claims_from_json(&decode_token(&r.value, "mw-secret").ok().unwrap()).unwrap();
    assert_eq!(ca.sub, "1");
    assert_eq!(ca.token_type, "AccessToken");
    assert_eq!(cr.token_type, "RefreshToken");
}

#[test]
fn extract_tokens_errors() {
    match extract_tokens(None, Some("r".to_string())) {
        Err(AuthError::Unauthorized(m)) => assert_eq!(m, "No access token"),
        other => panic!("unexpected {:?}", other),
    }
    match extract_tokens(Some("a".to_string()), None) {
        Err(AuthError::Unauthorized(m)) => assert_eq!(m, "No refresh token"),
        other => panic!("unexpected {:?}", other),
    }
    let (a, r) = extract_tokens(Some("a".to_string()), Some("r".to_string())).ok().unwrap();
    assert_eq!((a.as_str(), r.as_str()), ("a", "r"));
}

#[test]
fn middleware_missing_cookies_are_unauthorized() {
    let mw = AuthMiddleware { config: config() };
    match mw.begin(None, None) {
        AuthStep::Reject(AuthError::Unauthorized(m)) => assert_eq!(m, "No access token"),
        _ => panic!("expected a refusal"),
    }
    match mw.begin(Some("x".to_string()), None) {
        AuthStep::Reject(AuthError::Unauthorized(m)) => assert_eq!(m, "No refresh token"),
        _ => panic!("expected a refusal"),
    }
}

#[test]
fn middleware_valid_access_token_flow() {
    let mw = AuthMiddleware { config: config() };
    let (access, refresh) = generate_tokens(4, &mw.config).ok().unwrap();
    let user = match mw.begin(Some(access), Some(refresh.clone())) {
        AuthStep::CheckRefreshWindow { user } => user,
        _ => panic!("expected the renewal question"),
    };
    assert_eq!(user.claims.sub, "4");
    assert_eq!(user.claims.token_type, "AccessToken");
    assert_eq!(user.user_id, 4);
    match mw.after_refresh_window(user.clone(), false) {
        AuthStep::Accept { user: u, renewal: None } => assert_eq!(u.user_id, 4),
        _ => panic!("expected acceptance without renewal"),
    }
    match mw.after_refresh_window(user, true) {
        AuthStep::Accept { user: u, renewal: Some(t) } => {
            assert_eq!(u.user_id, 4);
            let c = claims_from_json(&decode_token(&t.access_token, "mw-secret").ok().unwrap()).unwrap();
            assert_eq!(c.sub, "4");
            let (ca, cr) = mw.renewal_cookies(&t, "/api/admin/location");
            assert_eq!(ca.value, t.access_token);
            assert_eq!(cr.value, t.refresh_token);
            assert_eq!(ca.path, "/api/admin");
            assert_eq!(cr.path, "/api/admin");
            let (pa, pr) = mw.renewal_cookies(&t, "/api/public/images");
            assert_eq!(pa.path, "/api/public");
            assert_eq!(pr.path, "/api/public");
        }
        _ => panic!("expected acceptance with renewal"),
    }
}

#[test]
fn middleware_falls_back_on_refresh_token() {
    let mw = AuthMiddleware { config: config() };
    let (_, refresh) = generate_tokens(8, &mw.config).ok().unwrap();
    match mw.begin(Some("garbage".to_string()), Some(refresh)) {
        AuthStep::Accept { user, renewal: Some(t) } => {
            assert_eq!(user.user_id, 8);
            assert_eq!(user.claims.token_type, REFRESH_TOKEN_TYPE);
            let c = claims_from_json(&decode_token(&t.refresh_token, "mw-secret").ok().unwrap()).unwrap();
            assert_eq!(c.token_type, REFRESH_TOKEN_TYPE);
            assert_eq!(c.sub, "8");
        }
        _ => panic!("expected acceptance with renewal"),
    }
}

#[test]
fn middleware_refresh_claims_step() {
    let mw = AuthMiddleware { config: config() };
    let (_, refresh) = generate_tokens(8, &mw.config).ok().unwrap();
    let json = decode_token(&refresh, "mw-secret").ok().unwrap();
    match mw.after_refresh_claims(claims_from_json(&json)) {
        AuthStep::Accept { user, renewal: Some(_) } => assert_eq!(user.user_id, 8),
        _ => panic!("expected acceptance with renewal"),
    }
}

#[test]
fn middleware_access_token_used_as_refresh_is_refused() {
    let mw = AuthMiddleware { config: config() };
    let (access, _) = generate_tokens(8, &mw.config).ok().unwrap();
    // the access token in the refresh cookie: decodes, but has the wrong type
    match mw.begin(Some("garbage".to_string()), Some(access.clone())) {
        AuthStep::Reject(AuthError::Token(TokenError::WrongType)) => {}
        _ => panic!("expected WrongType"),
    }
    let c = claims_from_json(&decode_token(&access, "mw-secret").ok().unwrap()).unwrap();
    assert_eq!(c.token_type, ACCESS_TOKEN_TYPE);
    match mw.after_refresh_claims(Some(c)) {
        AuthStep::Reject(AuthError::Token(TokenError::WrongType)) => {}
        _ => panic!("expected WrongType"),
    }
}

#[test]
fn middleware_both_tokens_invalid() {
    let mw = AuthMiddleware { config: config() };
    match mw.begin(Some("a".to_string()), Some("b".to_string())) {
        AuthStep::Reject(AuthError::Token(TokenError::Invalid)) => {}
        _ => panic!("expected Invalid"),
    }
    match mw.after_refresh_claims(None) {
        AuthStep::Reject(AuthError::Token(TokenError::Invalid)) => {}
        _ => panic!("expected Invalid"),
    }
}

#[test]
fn middleware_renewal_failure_is_refused() {
    let mw = AuthMiddleware { config: config() };
    let user = photobomber::auth::validate_access_token(Some(TokenClaims {
        exp: 1,
        iat: 0,
        iss: "photobomber-api".to_string(),
        token_type: "AccessToken".to_string(),
        sub: "2".to_string(),
    }))
    .ok()
    .unwrap();
    match mw.after_renewal(user, Err(TokenError::Invalid)) {
        AuthStep::Reject(AuthError::Token(TokenError::Invalid)) => {}
        _ => panic!("expected a refusal"),
    }
}

#[test]
fn decoding_needs_the_signing_secret() {
    let cfg = config();
    let (access, _) = generate_tokens(3, &cfg).ok().unwrap();
    assert!(decode_token(&access, "mw-secret").is_ok());
    assert!(matches!(decode_token(&access, "another-secret"), Err(TokenError::Invalid)));
    assert!(matches!(decode_token(&access, ""), Err(TokenError::Invalid)));
}
