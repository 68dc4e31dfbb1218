//! Access and refresh tokens: their claims, how they are written and signed, how long they
//! live, and how decoded claims are turned into an authenticated user.
use vstd::prelude::*;
use vstd::string::*;
use crate::constants::{ADMIN_ID, APP_NAME, PUBLIC_ID};
use crate::jwt::{
    braced, hs256_encoded, hs256_signature_valid, jwt_claims_pass, jwt_claims_text, jwt_decode_hs256, jwt_encode_hs256,
    utc_now_timestamp,
};
use crate::numeric::{
    hex_digit_char, i64_to_decimal, parse_i64, spec_i64_to_decimal, spec_parse_i64, digit_char,
    law_decimal_round_trip,
};
use crate::text::{chars_of, string_from_chars};
use crate::claims::{law_claims_text_round_trip, parse_claims_json, spec_parse_claims};

verus! {

/// The `token_type` claim of access tokens.
pub const ACCESS_TOKEN_TYPE: &'static str = "AccessToken";

/// The `token_type` claim of refresh tokens.
pub const REFRESH_TOKEN_TYPE: &'static str = "RefreshToken";

/// Minutes an access token lives when nothing else is configured.
pub const DEFAULT_ACCESS_TOKEN_MINUTES: i64 = 15;

/// Minutes a refresh token lives when nothing else is configured (one week).
pub const DEFAULT_REFRESH_TOKEN_MINUTES: i64 = 10080;

/// The secret used to sign tokens when none is configured.
pub const DEFAULT_JWT_SECRET: &'static str = "your-jwt-secret-here";

/// The claims carried by every token.
#[derive(Debug, Clone)]
pub struct TokenClaims {
    pub exp: i64,
    pub iat: i64,
    pub iss: String,
    pub token_type: String,
    /// The user id, as decimal text (RFC 7519 wants a string).
    pub sub: String,
}

/// The claims of a token as plain values.
pub struct TokenClaimsView {
    pub exp: i64,
    pub iat: i64,
    pub iss: Seq<char>,
    pub token_type: Seq<char>,
    pub sub: Seq<char>,
}

impl View for TokenClaims {
    type V = TokenClaimsView;

    open spec fn view(&self) -> TokenClaimsView {
        TokenClaimsView {
            exp: self.exp,
            iat: self.iat,
            iss: self.iss@,
            token_type: self.token_type@,
            sub: self.sub@,
        }
    }
}

/// Why a token was not accepted or could not be made.
#[derive(Debug)]
pub enum TokenError {
    Expired,
    Invalid,
    WrongType,
    ParseError,
    ConfigError(&'static str),
}

/// A user whose token was accepted, with the claims of that token.
#[derive(Debug, Clone)]
pub struct AuthenticatedUser {
    pub user_id: i64,
    pub claims: TokenClaims,
}

impl AuthenticatedUser {
    /// Whether the user is the administrator.
    pub fn is_admin(&self) -> (r: bool)
        ensures
            r == (self.user_id == ADMIN_ID),
    {
        self.user_id == ADMIN_ID
    }
}

/// A freshly issued pair of tokens that replaces the ones a request came with.
#[derive(Clone)]
pub struct TokenRefresh {
    pub access_token: String,
    pub refresh_token: String,
}

/// The settings tokens are made and checked with: the signing secret and the lifetimes, in
/// minutes, of access and refresh tokens.
pub struct AuthConfig {
    pub jwt_secret: String,
    pub access_minutes: i64,
    pub refresh_minutes: i64,
}

/// Whether a number of minutes makes a `chrono::TimeDelta`: `TimeDelta::minutes` panics
/// outside this range (the seconds must lie within `±(i64::MAX / 1000)`).
pub open spec fn minutes_in_delta_range(m: int) -> bool {
    -9223372036854775 <= 60 * m && 60 * m <= 9223372036854775
}

/// Seconds since the epoch of the earliest instant a `chrono::DateTime<Utc>` holds
/// (`-262143-01-01T00:00:00Z`).
pub open spec fn min_utc_timestamp() -> int {
    -8334601315200
}

/// Seconds since the epoch of the latest instant a `chrono::DateTime<Utc>` holds
/// (`+262142-12-31T23:59:59Z`).
pub open spec fn max_utc_timestamp() -> int {
    8210266876799
}

/// Whether adding `minutes` to the instant `now` stays within the range of `DateTime<Utc>`
/// (`DateTime + TimeDelta` panics otherwise).
pub open spec fn expiry_in_range(now: int, minutes: int) -> bool {
    min_utc_timestamp() <= now + 60 * minutes && now + 60 * minutes <= max_utc_timestamp()
}

impl AuthConfig {
    /// Both lifetimes make valid durations.
    pub open spec fn wf(&self) -> bool {
        &&& minutes_in_delta_range(self.access_minutes as int)
        &&& minutes_in_delta_range(self.refresh_minutes as int)
    }

    /// Settings from their configured values: the secret, or its default, and the two
    /// lifetimes, each read as `get_duration` reads it or else defaulted.
    pub fn from_settings(
        jwt_secret: Option<String>,
        access_minutes: Option<&str>,
        refresh_minutes: Option<&str>,
    ) -> (r: AuthConfig)
        requires
            configured_minutes_in_range(access_minutes),
            configured_minutes_in_range(refresh_minutes),
        ensures
            r.wf(),
            r.jwt_secret@ == spec_jwt_secret(jwt_secret),
            r.access_minutes == spec_configured_minutes(access_minutes, DEFAULT_ACCESS_TOKEN_MINUTES),
            r.refresh_minutes == spec_configured_minutes(refresh_minutes, DEFAULT_REFRESH_TOKEN_MINUTES),
    {
        AuthConfig {
            jwt_secret: get_jwt_secret(jwt_secret),
            access_minutes: get_access_token_duration(access_minutes),
            refresh_minutes: get_refresh_token_duration(refresh_minutes),
        }
    }
}

/// The configured secret, or the default one.
pub open spec fn spec_jwt_secret(configured: Option<String>) -> Seq<char> {
    match configured {
        Some(s) => s@,
        None => DEFAULT_JWT_SECRET@,
    }
}

/// Returns the jwt secret: the configured one, or the default.
pub fn get_jwt_secret(configured: Option<String>) -> (r: String)
    ensures
        r@ == spec_jwt_secret(configured),
{
    match configured {
        Some(s) => s,
        None => String::from_str(DEFAULT_JWT_SECRET),
    }
}

/// A configured number of minutes: the value it parses to, or the default where it is
/// missing or does not parse.
pub open spec fn spec_configured_minutes(configured: Option<&str>, default: i64) -> i64 {
    match configured {
        Some(s) => match spec_parse_i64(s@) {
            Some(v) => v,
            None => default,
        },
        None => default,
    }
}

/// A configured value that parses gives a valid duration.
pub open spec fn configured_minutes_in_range(configured: Option<&str>) -> bool {
    match configured {
        Some(s) => match spec_parse_i64(s@) {
            Some(v) => minutes_in_delta_range(v as int),
            None => true,
        },
        None => true,
    }
}

/// Tests whether a configured lifetime is usable: missing, not a number (both fall back on
/// the default), or a number of minutes that makes a valid duration.
pub fn configured_minutes_ok(configured: Option<&str>) -> (r: bool)
    ensures
        r == configured_minutes_in_range(configured),
{
    match configured {
        None => true,
        Some(s) => match parse_i64(s) {
            None => true,
            Some(v) => match v.checked_mul(60) {
                None => false,
                Some(secs) => -9223372036854775 <= secs && secs <= 9223372036854775,
            },
        },
    }
}

/// Reads a configured duration: an error where none is configured or where it does not
/// parse as an integer.
pub fn get_duration(configured: Option<&str>) -> (r: Result<i64, TokenError>)
    ensures
        configured is None ==> (r matches Err(TokenError::ConfigError(m)) && m@
            == "Duration not configured"@),
        configured matches Some(s) ==> match spec_parse_i64(s@) {
            Some(v) => r matches Ok(x) && x == v,
            None => r matches Err(TokenError::ConfigError(m)) && m@ == "Invalid duration format"@,
        },
{
    match configured {
        None => Err(TokenError::ConfigError("Duration not configured")),
        Some(s) => match parse_i64(s) {
            Some(v) => Ok(v),
            None => Err(TokenError::ConfigError("Invalid duration format")),
        },
    }
}

/// Returns the access token duration in minutes (15 where none is configured).
pub fn get_access_token_duration(configured: Option<&str>) -> (r: i64)
    requires
        configured_minutes_in_range(configured),
    ensures
        r == spec_configured_minutes(configured, DEFAULT_ACCESS_TOKEN_MINUTES),
        minutes_in_delta_range(r as int),
{
    match get_duration(configured) {
        Ok(v) => v,
        Err(_) => DEFAULT_ACCESS_TOKEN_MINUTES,
    }
}

/// Returns the refresh token duration in minutes (10080 where none is configured).
pub fn get_refresh_token_duration(configured: Option<&str>) -> (r: i64)
    requires
        configured_minutes_in_range(configured),
    ensures
        r == spec_configured_minutes(configured, DEFAULT_REFRESH_TOKEN_MINUTES),
        minutes_in_delta_range(r as int),
{
    match get_duration(configured) {
        Ok(v) => v,
        Err(_) => DEFAULT_REFRESH_TOKEN_MINUTES,
    }
}

/// The claims of a token for `user_id` of the given type, issued at `now` and living
/// `minutes` minutes.
pub open spec fn spec_token_claims(user_id: i64, token_type: Seq<char>, minutes: i64, now: i64) -> TokenClaimsView {
    TokenClaimsView {
        exp: (now + 60 * minutes) as i64,
        iat: now,
        iss: APP_NAME@,
        token_type: token_type,
        sub: spec_i64_to_decimal(user_id),
    }
}

/// Builds the claims of a token for `user_id`, issued at `now` and living `minutes` minutes;
/// `None` where the expiry falls outside the range of `chrono::DateTime<Utc>`.
pub fn token_claims_at(user_id: i64, token_type: &str, minutes: i64, now: i64) -> (r: Option<TokenClaims>)
    requires
        minutes_in_delta_range(minutes as int),
    ensures
        r is Some <==> expiry_in_range(now as int, minutes as int),
        r matches Some(c) ==> c@ == spec_token_claims(user_id, token_type@, minutes, now),
{
    let lifetime: i64 = minutes * 60;
    let exp = match now.checked_add(lifetime) {
        Some(e) => e,
        None => {
            return None;
        },
    };
    if exp < -8334601315200 || exp > 8210266876799 {
        return None;
    }
    Some(TokenClaims {
        exp,
        iat: now,
        iss: String::from_str(APP_NAME),
        token_type: String::from_str(token_type),
        sub: i64_to_decimal(user_id),
    })
}

/// How `serde_json` writes one character inside a JSON string: `"` and `\` and the control
/// characters below U+0020 are escaped (short forms for backspace, tab, line feed, form feed
/// and carriage return, `\u00XX` with lower-case hex digits for the rest); every other
/// character is written as it is.
pub open spec fn json_escape_char(c: char) -> Seq<char> {
    if c == '"' {
        seq!['\\', '"']
    } else if c == '\\' {
        seq!['\\', '\\']
    } else if c as int == 8 {
        seq!['\\', 'b']
    } else if c as int == 9 {
        seq!['\\', 't']
    } else if c as int == 10 {
        seq!['\\', 'n']
    } else if c as int == 12 {
        seq!['\\', 'f']
    } else if c as int == 13 {
        seq!['\\', 'r']
    } else if (c as int) < 32 {
        seq!['\\', 'u', '0', '0', digit_char((c as nat) / 16), digit_char((c as nat) % 16)]
    } else {
        seq![c]
    }
}

/// The escaped body of a JSON string.
pub open spec fn json_escape(s: Seq<char>) -> Seq<char>
    decreases s.len(),
{
    if s.len() == 0 {
        seq![]
    } else {
        json_escape(s.drop_last()) + json_escape_char(s.last())
    }
}

/// A JSON string literal for the text.
pub open spec fn json_string(s: Seq<char>) -> Seq<char> {
    seq!['"'] + json_escape(s) + seq!['"']
}

/// The JSON text of the claims, as `serde_json` writes the claims struct: one object, no
/// white space, the fields in the order `exp`, `iat`, `iss`, `token_type`, `sub`.
pub open spec fn spec_claims_json(c: TokenClaimsView) -> Seq<char> {
    "{\"exp\":"@ + spec_i64_to_decimal(c.exp) + ",\"iat\":"@ + spec_i64_to_decimal(c.iat)
        + ",\"iss\":"@ + json_string(c.iss) + ",\"token_type\":"@ + json_string(c.token_type)
        + ",\"sub\":"@ + json_string(c.sub) + "}"@
}

/// Whether a text is the JSON text of some claims, as this library writes them.
pub open spec fn is_claims_json(s: Seq<char>) -> bool {
    exists|c: TokenClaimsView| #[trigger] spec_claims_json(c) == s
}

/// Appends the JSON escape of one character.
fn push_json_escaped(out: &mut Vec<char>, c: char)
    ensures
        final(out)@ == old(out)@ + json_escape_char(c),
{
    let ghost start = out@;
    let code = c as u32;
    if c == '"' {
        out.push('\\');
        out.push('"');
    } else if c == '\\' {
        out.push('\\');
        out.push('\\');
    } else if code == 8 {
        out.push('\\');
        out.push('b');
    } else if code == 9 {
        out.push('\\');
        out.push('t');
    } else if code == 10 {
        out.push('\\');
        out.push('n');
    } else if code == 12 {
        out.push('\\');
        out.push('f');
    } else if code == 13 {
        out.push('\\');
        out.push('r');
    } else if code < 32 {
        out.push('\\');
        out.push('u');
        out.push('0');
        out.push('0');
        out.push(hex_digit_char((code / 16) as u64));
        out.push(hex_digit_char((code % 16) as u64));
    } else {
        out.push(c);
    }
    assert(out@ =~= start + json_escape_char(c));
}

/// Appends a JSON string literal for the text.
fn push_json_string(out: &mut Vec<char>, s: &str)
    ensures
        final(out)@ == old(out)@ + json_string(s@),
{
    let ghost start = out@;
    let cs = chars_of(s);
    out.push('"');
    let mut i: usize = 0;
    while i < cs.len()
        invariant
            i <= cs.len(),
            cs@ == s@,
            out@ == start + seq!['"'] + json_escape(s@.subrange(0, i as int)),
        decreases cs.len() - i,
    {
        let ghost before = out@;
        push_json_escaped(out, cs[i]);
        assert(s@.subrange(0, i + 1).drop_last() =~= s@.subrange(0, i as int));
        assert(s@.subrange(0, i + 1).last() == s@[i as int]);
        assert(out@ =~= start + seq!['"'] + json_escape(s@.subrange(0, i + 1)));
        i = i + 1;
    }
    assert(s@.subrange(0, cs.len() as int) =~= s@);
    out.push('"');
    assert(out@ =~= start + json_string(s@));
}

/// Appends the characters of a string slice.
fn push_str(out: &mut Vec<char>, s: &str)
    ensures
        final(out)@ == old(out)@ + s@,
{
    let ghost start = out@;
    let cs = chars_of(s);
    let mut i: usize = 0;
    while i < cs.len()
        invariant
            i <= cs.len(),
            cs@ == s@,
            out@ == start + s@.subrange(0, i as int),
        decreases cs.len() - i,
    {
        out.push(cs[i]);
        assert(s@.subrange(0, i + 1) =~= s@.subrange(0, i as int).push(s@[i as int]));
        i = i + 1;
    }
    assert(s@.subrange(0, cs.len() as int) =~= s@);
}

/// Writes the JSON text of the claims (see `spec_claims_json`).
pub fn claims_json(c: &TokenClaims) -> (r: String)
    ensures
        r@ == spec_claims_json(c@),
{
    let mut out: Vec<char> = Vec::new();
    push_str(&mut out, "{\"exp\":");
    let exp = i64_to_decimal(c.exp);
    push_str(&mut out, exp.as_str());
    push_str(&mut out, ",\"iat\":");
    let iat = i64_to_decimal(c.iat);
    push_str(&mut out, iat.as_str());
    push_str(&mut out, ",\"iss\":");
    push_json_string(&mut out, c.iss.as_str());
    push_str(&mut out, ",\"token_type\":");
    push_json_string(&mut out, c.token_type.as_str());
    push_str(&mut out, ",\"sub\":");
    push_json_string(&mut out, c.sub.as_str());
    push_str(&mut out, "}");
    assert(out@ =~= spec_claims_json(c@));
    string_from_chars(&out)
}

/// The JSON text of claims is braced: it opens with `{` and closes with `}`.
proof fn lemma_claims_json_braced(c: TokenClaimsView)
    ensures
        braced(spec_claims_json(c)),
{
    reveal_strlit("{\"exp\":");
    reveal_strlit("}");
    let head = "{\"exp\":"@;
    let rest = spec_i64_to_decimal(c.exp) + ",\"iat\":"@ + spec_i64_to_decimal(c.iat) + ",\"iss\":"@ + json_string(
        c.iss,
    ) + ",\"token_type\":"@ + json_string(c.token_type) + ",\"sub\":"@ + json_string(c.sub);
    let s = spec_claims_json(c);
    assert(s =~= head + rest + "}"@);
    assert(s[0] == head[0]);
    assert(s[s.len() - 1] == "}"@[0]);
}

/// Signs the claims with the secret. Signing the claims text this library writes does not
/// fail; the token carries the claims' JSON text and a signature that checks out under the
/// secret.
pub fn sign_claims(c: &TokenClaims, secret: &str) -> (r: Result<String, TokenError>)
    ensures
        r matches Ok(t) && hs256_encoded(spec_claims_json(c@), secret@) == Some(t@) && jwt_claims_text(t@) == Some(
            spec_claims_json(c@),
        ) && hs256_signature_valid(t@, secret@),
{
    let text = claims_json(c);
    proof {
        lemma_claims_json_braced(c@);
        assert(is_claims_json(text@)) by {
            assert(spec_claims_json(c@) == text@);
        }
    }
    match jwt_encode_hs256(text.as_str(), secret) {
        Ok(t) => Ok(t),
        Err(_) => Err(TokenError::Invalid),
    }
}

/// Whether `now` is a reading of the seconds clock: seconds since the epoch of an instant
/// `chrono::DateTime<Utc>` holds, not before the epoch.
pub open spec fn is_seconds_reading(now: i64) -> bool {
    0 <= now && now <= max_utc_timestamp()
}

/// Whether `t` is the token issued at the clock reading `now`: the signed claims of a token
/// issued then, whose expiry fits the range of `chrono::DateTime<Utc>`.
pub open spec fn generated_at(t: Seq<char>, user_id: i64, token_type: Seq<char>, minutes: i64, secret: Seq<char>, now: i64) -> bool {
    let json = spec_claims_json(spec_token_claims(user_id, token_type, minutes, now));
    &&& is_seconds_reading(now)
    &&& expiry_in_range(now as int, minutes as int)
    &&& hs256_encoded(json, secret) == Some(t)
    &&& jwt_claims_text(t) == Some(json)
    &&& hs256_signature_valid(t, secret)
}

/// The tokens that `generate_token` may return: for some reading `now` of the seconds clock,
/// the signed claims of a token issued then (so `iat` is `now` and `exp` is `now + 60 *
/// minutes`).
pub open spec fn is_generated_token(t: Seq<char>, user_id: i64, token_type: Seq<char>, minutes: i64, secret: Seq<char>) -> bool {
    exists|now: i64| #[trigger] generated_at(t, user_id, token_type, minutes, secret, now)
}

/// Whether issuing a token living `minutes` minutes fails at the clock reading `now`: its
/// expiry falls outside the range of `chrono::DateTime<Utc>`.
pub open spec fn issue_fails_at(now: i64, minutes: i64) -> bool {
    is_seconds_reading(now) && !expiry_in_range(now as int, minutes as int)
}

/// Whether issuing a token living `minutes` minutes fails at some reading of the seconds
/// clock. Generating a token fails only then, whoever it is for.
pub open spec fn issue_can_fail(minutes: i64) -> bool {
    exists|now: i64| #[trigger] issue_fails_at(now, minutes)
}

/// Generates an access/refresh token issued at `now` (seconds since the epoch) and living
/// `minutes` minutes: the signed claims of `spec_token_claims`, or an `Invalid` error exactly
/// where the expiry falls outside the range of `chrono::DateTime<Utc>`.
pub fn generate_token_at(user_id: i64, token_type: &str, minutes: i64, secret: &str, now: i64) -> (r: Result<
    String,
    TokenError,
>)
    requires
        minutes_in_delta_range(minutes as int),
    ensures
        r is Ok <==> expiry_in_range(now as int, minutes as int),
        r matches Ok(t) ==> {
            let json = spec_claims_json(spec_token_claims(user_id, token_type@, minutes, now));
            &&& hs256_encoded(json, secret@) == Some(t@)
            &&& jwt_claims_text(t@) == Some(json)
            &&& hs256_signature_valid(t@, secret@)
        },
        r matches Err(e) ==> e is Invalid,
{
    match token_claims_at(user_id, token_type, minutes, now) {
        None => Err(TokenError::Invalid),
        Some(claims) => sign_claims(&claims, secret),
    }
}

/// Internal function that generates an access/refresh token, issued now (by the seconds
/// clock) and living `minutes` minutes. An `Invalid` error only where the expiry falls
/// outside the range of `chrono::DateTime<Utc>` for the time read from the clock.
pub fn generate_token(user_id: i64, token_type: &str, minutes: i64, secret: &str) -> (r: Result<String, TokenError>)
    requires
        minutes_in_delta_range(minutes as int),
    ensures
        r matches Ok(t) ==> is_generated_token(t@, user_id, token_type@, minutes, secret@),
        r matches Err(e) ==> e is Invalid && issue_can_fail(minutes),
{
    let now = utc_now_timestamp();
    let r = generate_token_at(user_id, token_type, minutes, secret, now);
    assert(r matches Ok(t) ==> generated_at(t@, user_id, token_type@, minutes, secret@, now));
    assert(r is Err ==> issue_fails_at(now, minutes));
    r
}

/// Whether generating a pair of tokens with these settings fails at some reading of the
/// seconds clock (see `issue_can_fail`).
pub open spec fn tokens_can_fail(config: AuthConfig) -> bool {
    issue_can_fail(config.access_minutes) || issue_can_fail(config.refresh_minutes)
}

/// Generates an access token for the user.
pub fn generate_access_token(user_id: i64, config: &AuthConfig) -> (r: Result<String, TokenError>)
    requires
        config.wf(),
    ensures
        r matches Ok(t) ==> is_generated_token(t@, user_id, ACCESS_TOKEN_TYPE@, config.access_minutes, config.jwt_secret@),
        r matches Err(e) ==> e is Invalid && issue_can_fail(config.access_minutes),
{
    generate_token(user_id, ACCESS_TOKEN_TYPE, config.access_minutes, config.jwt_secret.as_str())
}

/// Generates a refresh token for the user.
pub fn generate_refresh_token(user_id: i64, config: &AuthConfig) -> (r: Result<String, TokenError>)
    requires
        config.wf(),
    ensures
        r matches Ok(t) ==> is_generated_token(t@, user_id, REFRESH_TOKEN_TYPE@, config.refresh_minutes, config.jwt_secret@),
        r matches Err(e) ==> e is Invalid && issue_can_fail(config.refresh_minutes),
{
    generate_token(user_id, REFRESH_TOKEN_TYPE, config.refresh_minutes, config.jwt_secret.as_str())
}

/// Generates new access/refresh tokens.
pub fn generate_tokens(user_id: i64, config: &AuthConfig) -> (r: Result<(String, String), TokenError>)
    requires
        config.wf(),
    ensures
        r matches Ok((a, b)) ==> is_generated_token(a@, user_id, ACCESS_TOKEN_TYPE@, config.access_minutes, config.jwt_secret@)
            && is_generated_token(b@, user_id, REFRESH_TOKEN_TYPE@, config.refresh_minutes, config.jwt_secret@),
        r matches Err(e) ==> e is Invalid && tokens_can_fail(*config),
{
    let access = match generate_access_token(user_id, config) {
        Ok(t) => t,
        Err(e) => {
            return Err(e);
        },
    };
    let refresh = match generate_refresh_token(user_id, config) {
        Ok(t) => t,
        Err(e) => {
            return Err(e);
        },
    };
    Ok((access, refresh))
}

/// The registered claims every token must carry.
fn required_claims() -> (r: Vec<String>)
    ensures
        r@.len() == 4,
        r@[0]@ == "exp"@,
        r@[1]@ == "iat"@,
        r@[2]@ == "iss"@,
        r@[3]@ == "sub"@,
{
    let mut r: Vec<String> = Vec::new();
    r.push(String::from_str("exp"));
    r.push(String::from_str("iat"));
    r.push(String::from_str("iss"));
    r.push(String::from_str("sub"));
    r
}

/// The registered claims every token must carry, as plain values.
pub open spec fn required_claims_view() -> Seq<Seq<char>> {
    seq!["exp"@, "iat"@, "iss"@, "sub"@]
}

/// What an accepted token is known to be: its claims part has the JSON text `claims_json`,
/// its signature checks out under the secret, and its claims carry the registered claims
/// and this service's issuer.
pub open spec fn token_checks_out(token: Seq<char>, claims_json: Seq<char>, secret: Seq<char>) -> bool {
    &&& jwt_claims_text(token) == Some(claims_json)
    &&& hs256_signature_valid(token, secret)
    &&& jwt_claims_pass(token, APP_NAME@, required_claims_view())
}

/// Checks a token's signature, issuer, registered claims and expiry, and gives back the JSON
/// text of its claims; `Invalid` where the check fails. Whether the check passes depends on
/// the clock (the token's expiry).
pub fn decode_token(token: &str, secret: &str) -> (r: Result<String, TokenError>)
    ensures
        r matches Ok(t) ==> token_checks_out(token@, t@, secret@),
        r matches Err(e) ==> e is Invalid,
{
    let required = required_claims();
    assert(required.deep_view() =~= required_claims_view());
    match jwt_decode_hs256(token, secret, APP_NAME, &required) {
        Ok(text) => Ok(text),
        Err(_) => Err(TokenError::Invalid),
    }
}

/// What the validation of decoded claims comes to.
pub enum ValidationOutcome {
    Invalid,
    WrongType,
    ParseError,
    User(i64),
}

/// The validation of claims (`None` where the token did not decode) against a token type:
/// the type must match, and the subject must be the decimal text of an `i64`, the user id.
pub open spec fn spec_validate(decoded: Option<TokenClaimsView>, token_type: Seq<char>) -> ValidationOutcome {
    match decoded {
        None => ValidationOutcome::Invalid,
        Some(c) => if c.token_type != token_type {
            ValidationOutcome::WrongType
        } else {
            match spec_parse_i64(c.sub) {
                None => ValidationOutcome::ParseError,
                Some(id) => ValidationOutcome::User(id),
            }
        },
    }
}

/// The decoded claims as plain values.
pub open spec fn claims_view(decoded: Option<TokenClaims>) -> Option<TokenClaimsView> {
    match decoded {
        Some(c) => Some(c@),
        None => None,
    }
}

/// What a validation result comes to.
pub open spec fn validation_of(r: Result<AuthenticatedUser, TokenError>) -> ValidationOutcome {
    match r {
        Ok(u) => ValidationOutcome::User(u.user_id),
        Err(TokenError::WrongType) => ValidationOutcome::WrongType,
        Err(TokenError::ParseError) => ValidationOutcome::ParseError,
        Err(_) => ValidationOutcome::Invalid,
    }
}

/// Validates the decoded claims of an access/refresh token (`None` where the token did not
/// decode) against the expected token type.
pub fn validate_token(decoded: Option<TokenClaims>, token_type: &str) -> (r: Result<AuthenticatedUser, TokenError>)
    ensures
        validation_of(r) == spec_validate(claims_view(decoded), token_type@),
        r matches Err(e) ==> (e is Invalid || e is WrongType || e is ParseError),
        r matches Ok(u) ==> decoded matches Some(c) && u.claims@ == c@,
{
    let claims = match decoded {
        None => {
            return Err(TokenError::Invalid);
        },
        Some(c) => c,
    };
    if !crate::text::str_eq(claims.token_type.as_str(), token_type) {
        return Err(TokenError::WrongType);
    }
    match parse_i64(claims.sub.as_str()) {
        None => Err(TokenError::ParseError),
        Some(user_id) => Ok(AuthenticatedUser { user_id, claims }),
    }
}

/// Validates the decoded claims of an access token.
pub fn validate_access_token(decoded: Option<TokenClaims>) -> (r: Result<AuthenticatedUser, TokenError>)
    ensures
        validation_of(r) == spec_validate(claims_view(decoded), ACCESS_TOKEN_TYPE@),
        r matches Err(e) ==> (e is Invalid || e is WrongType || e is ParseError),
        r matches Ok(u) ==> decoded matches Some(c) && u.claims@ == c@,
{
    validate_token(decoded, ACCESS_TOKEN_TYPE)
}

/// Validates the decoded claims of a refresh token.
pub fn validate_refresh_token(decoded: Option<TokenClaims>) -> (r: Result<AuthenticatedUser, TokenError>)
    ensures
        validation_of(r) == spec_validate(claims_view(decoded), REFRESH_TOKEN_TYPE@),
        r matches Err(e) ==> (e is Invalid || e is WrongType || e is ParseError),
        r matches Ok(u) ==> decoded matches Some(c) && u.claims@ == c@,
{
    validate_token(decoded, REFRESH_TOKEN_TYPE)
}

/// Checks a token end to end: decodes it with the secret (signature, issuer, registered
/// claims, expiry), reads its claims text back into `TokenClaims`, and validates them against
/// the token type. Whether decoding accepts depends on the clock; a token this service
/// generated for a user with this secret and type is either refused as `Invalid` (by the
/// clock) or accepted as that user.
pub fn authenticate_token(token: &str, secret: &str, token_type: &str) -> (r: Result<AuthenticatedUser, TokenError>)
    ensures
        r matches Ok(u) ==> (jwt_claims_text(token@) matches Some(j) && token_checks_out(token@, j, secret@)
            && spec_parse_claims(j) == Some(u.claims@) && spec_validate(Some(u.claims@), token_type@)
            == ValidationOutcome::User(u.user_id)),
        r matches Err(e) ==> (e is Invalid || e is WrongType || e is ParseError),
        forall|uid: i64, minutes: i64|
            #[trigger] is_generated_token(token@, uid, token_type@, minutes, secret@) ==> (r matches Ok(u) ==> u.user_id
                == uid) && (r matches Err(e) ==> e is Invalid),
{
    let text = match decode_token(token, secret) {
        Ok(t) => t,
        Err(e) => {
            return Err(e);
        },
    };
    let claims = parse_claims_json(text.as_str());
    let r = validate_token(claims, token_type);
    proof {
        assert forall|uid: i64, minutes: i64|
            #[trigger] is_generated_token(token@, uid, token_type@, minutes, secret@) implies (r matches Ok(u)
                ==> u.user_id == uid) && (r matches Err(e) ==> e is Invalid) by {
            law_generated_token_identifies_user(token@, uid, token_type@, minutes, secret@);
        }
    }
    r
}

/// The body of a login request.
#[derive(Debug, Clone)]
pub struct LoginRequest {
    pub username: Option<String>,
    pub password: Option<String>,
}

/// The passwords a login is checked against: the administrator's and the public one (either
/// may be unset, in which case no password matches it).
pub struct CredentialState {
    pub admin_password: Option<String>,
    pub public_password: Option<String>,
}

/// Whether a configured password is set and equal to the given one.
pub open spec fn password_matches(configured: Option<String>, given: Seq<char>) -> bool {
    configured matches Some(p) && p@ == given
}

/// The outcome of the credential check: `Ok(true)` for the administrator's password,
/// `Ok(false)` for the public one, an error for a missing or wrong password. Where both
/// passwords are the same, the administrator's wins.
pub open spec fn spec_credential_check(state: CredentialState, password: Option<String>) -> Result<bool, ()> {
    match password {
        None => Err(()),
        Some(p) => if password_matches(state.admin_password, p@) {
            Ok(true)
        } else if password_matches(state.public_password, p@) {
            Ok(false)
        } else {
            Err(())
        },
    }
}

/// Tests a configured password against the given one.
fn password_equals(configured: &Option<String>, given: &str) -> (r: bool)
    ensures
        r == password_matches(*configured, given@),
{
    match configured {
        Some(p) => crate::text::str_eq(p.as_str(), given),
        None => false,
    }
}

impl CredentialState {
    /// Checks the password of a login request (see `spec_credential_check`); the user name is
    /// not looked at.
    pub fn is_admin(&self, request: &LoginRequest) -> (r: Result<bool, ()>)
        ensures
            r == spec_credential_check(*self, request.password),
    {
        match &request.password {
            None => Err(()),
            Some(p) => {
                if password_equals(&self.admin_password, p.as_str()) {
                    Ok(true)
                } else if password_equals(&self.public_password, p.as_str()) {
                    Ok(false)
                } else {
                    Err(())
                }
            },
        }
    }
}

/// The user id a login is granted from the outcome of the credential check: the
/// administrator's id for administrator credentials, the public id for public ones, none
/// (401 "Unauthorized") for wrong credentials.
pub fn login_user_id(credential_check: Result<bool, ()>) -> (r: Option<i64>)
    ensures
        credential_check matches Ok(true) ==> r == Some(ADMIN_ID),
        credential_check matches Ok(false) ==> r == Some(PUBLIC_ID),
        credential_check is Err ==> r is None,
{
    match credential_check {
        Ok(true) => Some(ADMIN_ID),
        Ok(false) => Some(PUBLIC_ID),
        Err(_) => None,
    }
}

/// The claims a token is issued with identify its user again: validating them against the
/// same token type gives back the user id they were made for.
pub proof fn law_issued_claims_identify_user(user_id: i64, token_type: Seq<char>, minutes: i64, now: i64)
    ensures
        spec_validate(Some(spec_token_claims(user_id, token_type, minutes, now)), token_type)
            == ValidationOutcome::User(user_id),
{
    law_decimal_round_trip(user_id);
}

/// Claims issued for one token type are refused as the other: an access token's claims are
/// not a refresh token's, nor the other way round.
pub proof fn law_token_types_do_not_mix(user_id: i64, minutes: i64, now: i64)
    ensures
        spec_validate(Some(spec_token_claims(user_id, ACCESS_TOKEN_TYPE@, minutes, now)), REFRESH_TOKEN_TYPE@)
            == ValidationOutcome::WrongType,
        spec_validate(Some(spec_token_claims(user_id, REFRESH_TOKEN_TYPE@, minutes, now)), ACCESS_TOKEN_TYPE@)
            == ValidationOutcome::WrongType,
{
    reveal_strlit("AccessToken");
    reveal_strlit("RefreshToken");
    assert(ACCESS_TOKEN_TYPE@ != REFRESH_TOKEN_TYPE@) by {
        assert(ACCESS_TOKEN_TYPE@[0] != REFRESH_TOKEN_TYPE@[0]);
    }
}

/// A generated token identifies its user again: its signature checks out under the secret it
/// was made with, and its claims text reads back as claims issued by this service that
/// validate, against the token's own type, to the user it was made for (and are refused as
/// the other type).
pub proof fn law_generated_token_identifies_user(
    t: Seq<char>,
    user_id: i64,
    token_type: Seq<char>,
    minutes: i64,
    secret: Seq<char>,
)
    requires
        is_generated_token(t, user_id, token_type, minutes, secret),
    ensures
        hs256_signature_valid(t, secret),
        jwt_claims_text(t) matches Some(j) && spec_parse_claims(j) matches Some(c) && c.iss == APP_NAME@
            && spec_validate(Some(c), token_type) == ValidationOutcome::User(user_id),
        token_type == ACCESS_TOKEN_TYPE@ ==> (jwt_claims_text(t) matches Some(j) && spec_parse_claims(j) matches Some(c)
            && spec_validate(Some(c), REFRESH_TOKEN_TYPE@) == ValidationOutcome::WrongType),
        token_type == REFRESH_TOKEN_TYPE@ ==> (jwt_claims_text(t) matches Some(j) && spec_parse_claims(j) matches Some(
            c,
        ) && spec_validate(Some(c), ACCESS_TOKEN_TYPE@) == ValidationOutcome::WrongType),
{
    let now = choose|now: i64| generated_at(t, user_id, token_type, minutes, secret, now);
    let c = spec_token_claims(user_id, token_type, minutes, now);
    law_issued_claims_identify_user(user_id, token_type, minutes, now);
    law_token_types_do_not_mix(user_id, minutes, now);
    law_claims_text_round_trip(c);
}

/// A generated token carries its issue time by the seconds clock: its claims read back with
/// `iat` a seconds reading of an instant since the epoch, `exp` exactly `minutes` minutes
/// later, the user's id as subject, the token's type and this service as issuer.
pub proof fn law_generated_token_claims(t: Seq<char>, user_id: i64, token_type: Seq<char>, minutes: i64, secret: Seq<char>)
    requires
        is_generated_token(t, user_id, token_type, minutes, secret),
    ensures
        jwt_claims_text(t) matches Some(j) && spec_parse_claims(j) matches Some(c) && {
            &&& is_seconds_reading(c.iat)
            &&& c.exp == c.iat + 60 * minutes
            &&& c.sub == spec_i64_to_decimal(user_id)
            &&& c.token_type == token_type
            &&& c.iss == APP_NAME@
        },
{
    let now = choose|now: i64| generated_at(t, user_id, token_type, minutes, secret, now);
    law_claims_text_round_trip(spec_token_claims(user_id, token_type, minutes, now));
}

/// Issuing a token fails only near the end of the range of `chrono::DateTime<Utc>`: at a
/// clock reading from which the token's lifetime still ends within that range, issuing
/// succeeds, whoever the token is for.
pub proof fn law_issuing_fails_only_at_the_end_of_time(now: i64, minutes: i64)
    requires
        is_seconds_reading(now),
        0 <= minutes,
        now + 60 * minutes <= max_utc_timestamp(),
    ensures
        !issue_fails_at(now, minutes),
{
}

/// A token issued at `now` expires exactly `minutes` minutes later.
pub proof fn law_token_lifetime(user_id: i64, token_type: Seq<char>, minutes: i64, now: i64)
    requires
        expiry_in_range(now as int, minutes as int),
    ensures
        spec_token_claims(user_id, token_type, minutes, now).exp - spec_token_claims(user_id, token_type, minutes, now).iat
            == 60 * minutes,
{
}

} // verus!
