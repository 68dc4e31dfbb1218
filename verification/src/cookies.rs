//! The authentication cookies: what is set on a response to log a user in, to renew their
//! tokens, or to log them out, and how the tokens are read back from a request.
use vstd::prelude::*;
use vstd::string::*;
use crate::text::{is_prefix, starts_with};
use crate::auth::{generate_tokens, is_generated_token, tokens_can_fail, AuthConfig, TokenError, ACCESS_TOKEN_TYPE, REFRESH_TOKEN_TYPE};

verus! {

/// Name of the cookie that carries the access token.
pub const ACCESS_COOKIE_NAME: &'static str = "access_token";

/// Name of the cookie that carries the refresh token.
pub const REFRESH_COOKIE_NAME: &'static str = "refresh_token";

/// Path of the cookies of administrator sessions: they are sent to the admin routes only.
pub const ADMIN_COOKIE_PATH: &'static str = "/api/admin";

/// Path of the cookies of public sessions: they are sent to the public routes only.
pub const PUBLIC_COOKIE_PATH: &'static str = "/api/public";

/// The path of a session's cookies, by the session's role, so that an administrator session
/// and a public one held by the same browser do not overwrite each other.
pub open spec fn cookie_path(is_admin: bool) -> Seq<char> {
    if is_admin {
        ADMIN_COOKIE_PATH@
    } else {
        PUBLIC_COOKIE_PATH@
    }
}

/// Whether a request path lies under the admin routes.
pub open spec fn spec_is_admin_path(path: Seq<char>) -> bool {
    is_prefix(ADMIN_COOKIE_PATH@, path)
}

/// Tests whether a request path lies under the admin routes (begins with `/api/admin`).
pub fn is_admin_path(path: &str) -> (r: bool)
    ensures
        r == spec_is_admin_path(path@),
{
    starts_with(path, ADMIN_COOKIE_PATH)
}

/// Renewal keeps a session's scope: a request that carries the cookies of a session (the
/// browser sends them only to paths under the cookie path) has its renewed cookies set with
/// that same path, so an administrator session stays one and a public session stays one.
pub proof fn law_renewal_keeps_cookie_scope(is_admin: bool, request_path: Seq<char>)
    requires
        is_prefix(cookie_path(is_admin), request_path),
    ensures
        cookie_path(spec_is_admin_path(request_path)) == cookie_path(is_admin),
{
    reveal_strlit("/api/admin");
    reveal_strlit("/api/public");
    if !is_admin {
        assert(request_path[5] == PUBLIC_COOKIE_PATH@[5]) by {
            assert(request_path.subrange(0, PUBLIC_COOKIE_PATH@.len() as int)[5] == request_path[5]);
        }
        if spec_is_admin_path(request_path) {
            assert(request_path.subrange(0, ADMIN_COOKIE_PATH@.len() as int)[5] == request_path[5]);
            assert(false);
        }
    }
}

/// A cookie to set on a response.
#[derive(Debug, Clone)]
pub struct AuthCookie {
    pub name: String,
    pub value: String,
    pub path: String,
    pub secure: bool,
    pub http_only: bool,
    /// Lifetime of the cookie in minutes.
    pub max_age_minutes: i64,
    /// Whether the cookie is a removal cookie (the browser drops the stored cookie).
    pub removal: bool,
}

/// Why a request is refused.
#[derive(Debug)]
pub enum AuthError {
    /// No usable credentials; the text says which cookie is missing.
    Unauthorized(&'static str),
    /// A token was refused, or new tokens could not be made.
    Token(TokenError),
}

/// A cookie holding `value` under `name`, for the routes under `path`, secure and HTTP-only,
/// living `minutes` minutes.
pub open spec fn is_auth_cookie(c: AuthCookie, name: Seq<char>, value: Seq<char>, minutes: i64, path: Seq<char>) -> bool {
    &&& c.name@ == name
    &&& c.value@ == value
    &&& c.path@ == path
    &&& c.secure
    &&& c.http_only
    &&& c.max_age_minutes == minutes
    &&& !c.removal
}

/// A removal cookie for `name` under `path`: empty value, secure, HTTP-only, zero lifetime.
/// A browser drops the stored cookie with the same name and the same path.
pub open spec fn is_removal_cookie(c: AuthCookie, name: Seq<char>, path: Seq<char>) -> bool {
    &&& c.name@ == name
    &&& c.value@ == Seq::<char>::empty()
    &&& c.path@ == path
    &&& c.secure
    &&& c.http_only
    &&& c.max_age_minutes == 0
    &&& c.removal
}

fn make_cookie(name: &str, value: &str, path: &str, minutes: i64, removal: bool) -> (c: AuthCookie)
    ensures
        c.name@ == name@,
        c.value@ == value@,
        c.path@ == path@,
        c.secure,
        c.http_only,
        c.max_age_minutes == minutes,
        c.removal == removal,
{
    AuthCookie {
        name: String::from_str(name),
        value: String::from_str(value),
        path: String::from_str(path),
        secure: true,
        http_only: true,
        max_age_minutes: minutes,
        removal,
    }
}

/// Builds the auth cookies of a session, for the admin routes where `is_admin` holds and for
/// the public routes otherwise. These can be set in a response.
pub fn build_auth_cookies(access_token: &str, refresh_token: &str, is_admin: bool, config: &AuthConfig) -> (r: (
    AuthCookie,
    AuthCookie,
))
    ensures
        is_auth_cookie(r.0, ACCESS_COOKIE_NAME@, access_token@, config.access_minutes, cookie_path(is_admin)),
        is_auth_cookie(r.1, REFRESH_COOKIE_NAME@, refresh_token@, config.refresh_minutes, cookie_path(is_admin)),
{
    let path = if is_admin {
        ADMIN_COOKIE_PATH
    } else {
        PUBLIC_COOKIE_PATH
    };
    let access = make_cookie(ACCESS_COOKIE_NAME, access_token, path, config.access_minutes, false);
    let refresh = make_cookie(REFRESH_COOKIE_NAME, refresh_token, path, config.refresh_minutes, false);
    (access, refresh)
}

/// Builds the auth removal cookies of a session, for the admin routes where `is_admin` holds
/// and for the public routes otherwise: they reset the cookies `build_auth_cookies` sets for
/// the same role. These can be set in a response.
pub fn build_auth_removal_cookies(is_admin: bool) -> (r: (AuthCookie, AuthCookie))
    ensures
        is_removal_cookie(r.0, ACCESS_COOKIE_NAME@, cookie_path(is_admin)),
        is_removal_cookie(r.1, REFRESH_COOKIE_NAME@, cookie_path(is_admin)),
{
    proof {
        reveal_strlit("");
    }
    let path = if is_admin {
        ADMIN_COOKIE_PATH
    } else {
        PUBLIC_COOKIE_PATH
    };
    let access = make_cookie(ACCESS_COOKIE_NAME, "", path, 0, true);
    let refresh = make_cookie(REFRESH_COOKIE_NAME, "", path, 0, true);
    assert(access.value@ =~= Seq::<char>::empty());
    assert(refresh.value@ =~= Seq::<char>::empty());
    (access, refresh)
}

/// The removal cookies a logout sets: those of the administrator session and those of the
/// public session (the logout route lies under neither scope, so it resets both), in the
/// order admin access, admin refresh, public access, public refresh.
pub fn generate_and_set_auth_removal_cookies() -> (r: Vec<AuthCookie>)
    ensures
        r@.len() == 4,
        is_removal_cookie(r@[0], ACCESS_COOKIE_NAME@, cookie_path(true)),
        is_removal_cookie(r@[1], REFRESH_COOKIE_NAME@, cookie_path(true)),
        is_removal_cookie(r@[2], ACCESS_COOKIE_NAME@, cookie_path(false)),
        is_removal_cookie(r@[3], REFRESH_COOKIE_NAME@, cookie_path(false)),
{
    let (admin_access, admin_refresh) = build_auth_removal_cookies(true);
    let (public_access, public_refresh) = build_auth_removal_cookies(false);
    let mut r: Vec<AuthCookie> = Vec::new();
    r.push(admin_access);
    r.push(admin_refresh);
    r.push(public_access);
    r.push(public_refresh);
    r
}

/// Logout resets every session: for each role and each of the two session cookies, the
/// cookies a logout sets hold a removal cookie with the name and the path of the session
/// cookie that `build_auth_cookies` sets for that role, so the browser drops it.
pub proof fn law_logout_removes_session_cookies(
    removals: Seq<AuthCookie>,
    session: AuthCookie,
    is_admin: bool,
    value: Seq<char>,
    minutes: i64,
)
    requires
        removals.len() == 4,
        is_removal_cookie(removals[0], ACCESS_COOKIE_NAME@, cookie_path(true)),
        is_removal_cookie(removals[1], REFRESH_COOKIE_NAME@, cookie_path(true)),
        is_removal_cookie(removals[2], ACCESS_COOKIE_NAME@, cookie_path(false)),
        is_removal_cookie(removals[3], REFRESH_COOKIE_NAME@, cookie_path(false)),
        is_auth_cookie(session, ACCESS_COOKIE_NAME@, value, minutes, cookie_path(is_admin)) || is_auth_cookie(
            session,
            REFRESH_COOKIE_NAME@,
            value,
            minutes,
            cookie_path(is_admin),
        ),
    ensures
        exists|i: int|
            0 <= i < 4 && #[trigger] removals[i].removal && removals[i].name@ == session.name@ && removals[i].path@
                == session.path@,
{
    let i: int = if is_admin {
        if session.name@ == ACCESS_COOKIE_NAME@ { 0 } else { 1 }
    } else {
        if session.name@ == ACCESS_COOKIE_NAME@ { 2 } else { 3 }
    };
    assert(removals[i].removal);
}

/// Generates access/refresh tokens for the user and the cookies that carry them, for the
/// admin routes where `is_admin` holds and for the public routes otherwise. An error where the
/// tokens could not be made.
pub fn generate_and_set_auth_cookies(user_id: i64, is_admin: bool, config: &AuthConfig) -> (r: Result<
    (AuthCookie, AuthCookie),
    TokenError,
>)
    requires
        config.wf(),
    ensures
        r matches Ok((a, b)) ==> {
            &&& is_auth_cookie(a, ACCESS_COOKIE_NAME@, a.value@, config.access_minutes, cookie_path(is_admin))
            &&& is_auth_cookie(b, REFRESH_COOKIE_NAME@, b.value@, config.refresh_minutes, cookie_path(is_admin))
            &&& is_generated_token(a.value@, user_id, ACCESS_TOKEN_TYPE@, config.access_minutes, config.jwt_secret@)
            &&& is_generated_token(b.value@, user_id, REFRESH_TOKEN_TYPE@, config.refresh_minutes, config.jwt_secret@)
        },
        r matches Err(e) ==> e is Invalid && tokens_can_fail(*config),
{
    let (access, refresh) = match generate_tokens(user_id, config) {
        Ok(pair) => pair,
        Err(e) => {
            return Err(e);
        },
    };
    Ok(build_auth_cookies(access.as_str(), refresh.as_str(), is_admin, config))
}

/// Extracts access/refresh tokens from the values of the request's cookies.
pub fn extract_tokens(access_cookie: Option<String>, refresh_cookie: Option<String>) -> (r: Result<(String, String), AuthError>)
    ensures
        access_cookie is None ==> (r matches Err(AuthError::Unauthorized(m)) && m@ == "No access token"@),
        access_cookie is Some && refresh_cookie is None ==> (r matches Err(AuthError::Unauthorized(m))
            && m@ == "No refresh token"@),
        (access_cookie is Some && refresh_cookie is Some) ==> (r matches Ok((x, y)) && x@ == access_cookie->0@
            && y@ == refresh_cookie->0@),
{
    let access = match access_cookie {
        Some(a) => a,
        None => {
            return Err(AuthError::Unauthorized("No access token"));
        },
    };
    let refresh = match refresh_cookie {
        Some(b) => b,
        None => {
            return Err(AuthError::Unauthorized("No refresh token"));
        },
    };
    Ok((access, refresh))
}

} // verus!
