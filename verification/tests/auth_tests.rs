use photobomber::auth::{
    claims_json, decode_token, generate_access_token, generate_refresh_token, generate_tokens,
    get_access_token_duration, get_duration, get_jwt_secret, get_refresh_token_duration,
    generate_token_at, login_user_id, sign_claims, token_claims_at, CredentialState, LoginRequest, validate_access_token, validate_refresh_token,
    validate_token, AuthConfig, AuthenticatedUser, TokenClaims, TokenError, ACCESS_TOKEN_TYPE,
    REFRESH_TOKEN_TYPE,
};
use photobomber::constants::{ADMIN_ID, PUBLIC_ID};

fn config() -> AuthConfig {
    AuthConfig::from_settings(Some("test-secret".to_string()), Some("15"), Some("10080"))
}

fn claims(token_type: &str, sub: &str) -> TokenClaims {
    TokenClaims {
        exp: 2000,
        iat: 1000,
        iss: "photobomber-api".to_string(),
        token_type: token_type.to_string(),
        sub: sub.to_string(),
    }
}

fn claims_from_json(text: &str) -> Option<TokenClaims> {
    let v: serde_json::Value = serde_json::from_str(text).ok()?;
    Some(TokenClaims {
        exp: v.get("exp")?.as_i64()?,
        iat: v.get("iat")?.as_i64()?,
        iss: v.get("iss")?.as_str()?.to_string(),
        token_type: v.get("token_type")?.as_str()?.to_string(),
        sub: v.get("sub")?.as_str()?.to_string(),
    })
}

#[test]
fn is_admin_only_for_admin_id() {
    let admin = AuthenticatedUser { user_id: 1, claims: claims(ACCESS_TOKEN_TYPE, "1") };
    let public = AuthenticatedUser { user_id: 0, claims: claims(ACCESS_TOKEN_TYPE, "0") };
    assert!(admin.is_admin());
    assert!(!public.is_admin());
}

#[test]
fn jwt_secret_defaults() {
    assert_eq!(get_jwt_secret(None), "your-jwt-secret-here");
    assert_eq!(get_jwt_secret(Some("s3".to_string())), "s3");
}

#[test]
fn duration_errors_and_defaults() {
    match get_duration(None) {
        Err(TokenError::ConfigError(m)) => assert_eq!(m, "Duration not configured"),
        other => panic!("unexpected {:?}", other),
    }
    match get_duration(Some("ten")) {
        Err(TokenError::ConfigError(m)) => assert_eq!(m, "Invalid duration format"),
        other => panic!("unexpected {:?}", other),
    }
    assert_eq!(get_duration(Some("30")).ok(), Some(30));
    assert_eq!(get_access_token_duration(None), 15);
    assert_eq!(get_access_token_duration(Some("x")), 15);
    assert_eq!(get_access_token_duration(Some("60")), 60);
    assert_eq!(get_refresh_token_duration(None), 10080);
    assert_eq!(get_refresh_token_duration(Some("-5")), -5);
}

#[test]
fn claims_at_a_fixed_time() {
    let c = token_claims_at(-42, ACCESS_TOKEN_TYPE, 15, 1_700_000_000).unwrap();
    assert_eq!(c.exp, 1_700_000_900);
    assert_eq!(c.iat, 1_700_000_000);
    assert_eq!(c.iss, "photobomber-api");
    assert_eq!(c.token_type, "AccessToken");
    assert_eq!(c.sub, "-42");
    // token lifetime law: exp - iat == 60 * minutes
    let d = token_claims_at(1, REFRESH_TOKEN_TYPE, 10080, 0).unwrap();
    assert_eq!(d.exp - d.iat, 60 * 10080);
}

#[test]
fn claims_out_of_date_range_are_refused() {
    assert!(token_claims_at(1, ACCESS_TOKEN_TYPE, 1, 8210266876799).is_none());
    assert!(token_claims_at(1, ACCESS_TOKEN_TYPE, 0, 8210266876799).is_some());
    assert!(token_claims_at(1, ACCESS_TOKEN_TYPE, -1, -8334601315200).is_none());
}

#[test]
fn claims_json_is_serde_layout() {
    let c = token_claims_at(7, ACCESS_TOKEN_TYPE, 15, 1000).unwrap();
    assert_eq!(
        claims_json(&c),
        r#"{"exp":1900,"iat":1000,"iss":"photobomber-api","token_type":"AccessToken","sub":"7"}"#
    );
    let odd = TokenClaims {
        exp: -1,
        iat: 0,
        iss: "a\"b\\c".to_string(),
        token_type: "t\n\t\r\u{8}\u{c}\u{1}\u{1f}".to_string(),
        sub: "é/\u{7f}".to_string(),
    };
    let text = claims_json(&odd);
    assert_eq!(
        text,
        "{\"exp\":-1,\"iat\":0,\"iss\":\"a\\\"b\\\\c\",\"token_type\":\"t\\n\\t\\r\\b\\f\\u0001\\u001f\",\"sub\":\"é/\u{7f}\"}"
    );
    let v: serde_json::Value = serde_json::from_str(&text).unwrap();
    assert_eq!(v["token_type"], serde_json::Value::String(odd.token_type.clone()));
    assert_eq!(serde_json::to_string(&odd.iss).unwrap(), "\"a\\\"b\\\\c\"");
    assert_eq!(serde_json::to_string(&odd.token_type).unwrap(), "\"t\\n\\t\\r\\b\\f\\u0001\\u001f\"");
}

#[test]
fn signed_token_carries_the_claims() {
    let c = token_claims_at(3, ACCESS_TOKEN_TYPE, 15, 4_000_000_000).unwrap();
    let token = sign_claims(&c, "k").ok().unwrap();
    let text = claims_json(&c);
    assert_ne!(token, text);
    assert_eq!(token.split('.').count(), 3);
    let decoded = decode_token(&token, "k").ok().unwrap();
    assert_eq!(decoded, text);
}

#[test]
fn decode_refuses_wrong_secret_expired_and_garbage() {
    let c = token_claims_at(3, ACCESS_TOKEN_TYPE, 15, 4_000_000_000).unwrap();
    let token = sign_claims(&c, "k").ok().unwrap();
    assert!(matches!(decode_token(&token, "other"), Err(TokenError::Invalid)));
    let old = token_claims_at(3, ACCESS_TOKEN_TYPE, 15, 1_000).unwrap();
    let old_token = sign_claims(&old, "k").ok().unwrap();
    assert!(matches!(decode_token(&old_token, "k"), Err(TokenError::Invalid)));
    assert!(matches!(decode_token("not a token", "k"), Err(TokenError::Invalid)));
}

#[test]
fn decode_refuses_foreign_issuer() {
    let mut c = token_claims_at(3, ACCESS_TOKEN_TYPE, 15, 4_000_000_000).unwrap();
    c.iss = "someone-else".to_string();
    let token = sign_claims(&c, "k").ok().unwrap();
    assert!(matches!(decode_token(&token, "k"), Err(TokenError::Invalid)));
}

#[test]
fn validation_outcomes() {
    assert!(matches!(validate_token(None, ACCESS_TOKEN_TYPE), Err(TokenError::Invalid)));
    assert!(matches!(
        validate_access_token(Some(claims(REFRESH_TOKEN_TYPE, "1"))),
        Err(TokenError::WrongType)
    ));
    assert!(matches!(
        validate_refresh_token(Some(claims(ACCESS_TOKEN_TYPE, "1"))),
        Err(TokenError::WrongType)
    ));
    assert!(matches!(
        validate_access_token(Some(claims(ACCESS_TOKEN_TYPE, "one"))),
        Err(TokenError::ParseError)
    ));
    let user = validate_refresh_token(Some(claims(REFRESH_TOKEN_TYPE, "17"))).ok().unwrap();
    assert_eq!(user.user_id, 17);
    assert_eq!(user.claims.sub, "17");
}

#[test]
fn generated_tokens_identify_their_user() {
    let cfg = config();
    let (access, refresh) = generate_tokens(-9, &cfg).ok().unwrap();
    let a = claims_from_json(&decode_token(&access, &cfg.jwt_secret).ok().unwrap());
    let r = claims_from_json(&decode_token(&refresh, &cfg.jwt_secret).ok().unwrap());
    assert_eq!(validate_access_token(a.clone()).ok().unwrap().user_id, -9);
    assert_eq!(validate_refresh_token(r.clone()).ok().unwrap().user_id, -9);
    // token types do not mix
    assert!(matches!(validate_refresh_token(a), Err(TokenError::WrongType)));
    assert!(matches!(validate_access_token(r), Err(TokenError::WrongType)));
}

#[test]
fn generated_token_lifetimes_follow_config() {
    let cfg = AuthConfig::from_settings(Some("s".to_string()), Some("2"), Some("3"));
    let a = generate_access_token(5, &cfg).ok().unwrap();
    let r = generate_refresh_token(5, &cfg).ok().unwrap();
    let ca = claims_from_json(&decode_token(&a, "s").ok().unwrap()).unwrap();
    let cr = claims_from_json(&decode_token(&r, "s").ok().unwrap()).unwrap();
    assert_eq!(ca.exp - ca.iat, 120);
    assert_eq!(cr.exp - cr.iat, 180);
    assert_eq!(cr.token_type, "RefreshToken");
}

#[test]
fn login_ids() {
    assert_eq!(login_user_id(Ok(true)), Some(ADMIN_ID));
    assert_eq!(login_user_id(Ok(false)), Some(PUBLIC_ID));
    assert_eq!(login_user_id(Err(())), None);
}

fn login(password: Option<&str>) -> LoginRequest {
    LoginRequest { username: None, password: password.map(|p| p.to_string()) }
}

#[test]
fn credential_check_by_password() {
    let creds = CredentialState { admin_password: Some("boss".to_string()), public_password: Some("crowd".to_string()) };
    assert_eq!(creds.is_admin(&login(Some("boss"))), Ok(true));
    assert_eq!(creds.is_admin(&login(Some("crowd"))), Ok(false));
    assert_eq!(creds.is_admin(&login(Some("nope"))), Err(()));
    assert_eq!(creds.is_admin(&login(Some(""))), Err(()));
    assert_eq!(creds.is_admin(&login(None)), Err(()));
    let unset = CredentialState { admin_password: None, public_password: None };
    assert_eq!(unset.is_admin(&login(Some(""))), Err(()));
    let same = CredentialState { admin_password: Some("x".to_string()), public_password: Some("x".to_string()) };
    assert_eq!(same.is_admin(&login(Some("x"))), Ok(true));
}

#[test]
fn token_at_a_given_time_round_trips() {
    let t = generate_token_at(9, ACCESS_TOKEN_TYPE, 15, "s", 1_000).ok().unwrap();
    let decoded = claims_from_json_text(&decode_token_ignoring_expiry(&t, "s")).unwrap();
    assert_eq!(decoded.exp, 1_900);
    assert_eq!(decoded.iat, 1_000);
    assert_eq!(decoded.sub, "9");
    assert!(matches!(generate_token_at(9, ACCESS_TOKEN_TYPE, 15, "s", 8210266876799), Err(TokenError::Invalid)));
    assert!(matches!(generate_token_at(9, ACCESS_TOKEN_TYPE, 15, "s", i64::MAX), Err(TokenError::Invalid)));
}

fn decode_token_ignoring_expiry(token: &str, secret: &str) -> String {
    let mut v = jsonwebtoken::Validation::new(jsonwebtoken::Algorithm::HS256);
    v.validate_exp = false;
    v.required_spec_claims.clear();
    let key = jsonwebtoken::DecodingKey::from_secret(secret.as_bytes());
    jsonwebtoken::decode::<serde_json::Value>(token, &key, &v).ok().unwrap().claims.to_string()
}

fn claims_from_json_text(text: &str) -> Option<TokenClaims> {
    let v: serde_json::Value = serde_json::from_str(text).ok()?;
    Some(TokenClaims {
        exp: v.get("exp")?.as_i64()?,
        iat: v.get("iat")?.as_i64()?,
        iss: v.get("iss")?.as_str()?.to_string(),
        token_type: v.get("token_type")?.as_str()?.to_string(),
        sub: v.get("sub")?.as_str()?.to_string(),
    })
}
