use photobomber::auth::{
    authenticate_token, claims_json, generate_access_token, generate_refresh_token, AuthConfig, TokenClaims,
    TokenError, ACCESS_TOKEN_TYPE, REFRESH_TOKEN_TYPE,
};
use photobomber::claims::parse_claims_json;

fn claims(iss: &str, token_type: &str, sub: &str) -> TokenClaims {
    TokenClaims { exp: -42, iat: i64::MIN, iss: iss.to_string(), token_type: token_type.to_string(), sub: sub.to_string() }
}

fn same(a: &TokenClaims, b: &TokenClaims) -> bool {
    a.exp == b.exp && a.iat == b.iat && a.iss == b.iss && a.token_type == b.token_type && a.sub == b.sub
}

#[test]
fn claims_text_reads_back() {
    let cases = [
        claims("photobomber-api", "AccessToken", "1"),
        claims("quote \" and \\ back", "tab\there\nnew", "\u{1}\u{1f}\u{8}\u{c}\r"),
        claims("", "", "ü日本"),
    ];
    for c in cases.iter() {
        let text = claims_json(c);
        let back = parse_claims_json(&text).unwrap();
        assert!(same(c, &back), "text {}", text);
        // what serde_json reads from the same text agrees
        let v: serde_json::Value = serde_json::from_str(&text).unwrap();
        assert_eq!(v["sub"].as_str().unwrap(), c.sub);
        assert_eq!(v["iss"].as_str().unwrap(), c.iss);
    }
}

#[test]
fn other_texts_are_not_read() {
    for t in [
        "",
        "{}",
        "{\"exp\":1,\"iat\":2,\"iss\":\"a\",\"token_type\":\"b\",\"sub\":\"c\"} ",
        "{\"exp\": 1,\"iat\":2,\"iss\":\"a\",\"token_type\":\"b\",\"sub\":\"c\"}",
        "{\"iat\":2,\"exp\":1,\"iss\":\"a\",\"token_type\":\"b\",\"sub\":\"c\"}",
        "{\"exp\":1,\"iat\":2,\"iss\":\"a\\q\",\"token_type\":\"b\",\"sub\":\"c\"}",
        "{\"exp\":x,\"iat\":2,\"iss\":\"a\",\"token_type\":\"b\",\"sub\":\"c\"}",
        "{\"exp\":1,\"iat\":2,\"iss\":\"a\",\"token_type\":\"b\",\"sub\":\"c",
    ] {
        assert!(parse_claims_json(t).is_none(), "text {}", t);
    }
    let ok = parse_claims_json("{\"exp\":1,\"iat\":2,\"iss\":\"a\",\"token_type\":\"b\",\"sub\":\"c\"}").unwrap();
    assert!(same(&ok, &TokenClaims { exp: 1, iat: 2, iss: "a".into(), token_type: "b".into(), sub: "c".into() }));
}

#[test]
fn generated_tokens_authenticate_as_their_user() {
    let cfg = AuthConfig::from_settings(Some("rt-secret".to_string()), Some("15"), Some("60"));
    let a = generate_access_token(77, &cfg).ok().unwrap();
    let r = generate_refresh_token(77, &cfg).ok().unwrap();
    assert_eq!(authenticate_token(&a, "rt-secret", ACCESS_TOKEN_TYPE).ok().unwrap().user_id, 77);
    assert_eq!(authenticate_token(&r, "rt-secret", REFRESH_TOKEN_TYPE).ok().unwrap().user_id, 77);
    assert!(matches!(authenticate_token(&a, "rt-secret", REFRESH_TOKEN_TYPE), Err(TokenError::WrongType)));
    assert!(matches!(authenticate_token(&r, "rt-secret", ACCESS_TOKEN_TYPE), Err(TokenError::WrongType)));
    assert!(matches!(authenticate_token(&a, "other", ACCESS_TOKEN_TYPE), Err(TokenError::Invalid)));
    assert!(matches!(authenticate_token("x.y.z", "rt-secret", ACCESS_TOKEN_TYPE), Err(TokenError::Invalid)));
}
