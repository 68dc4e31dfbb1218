//! The authentication middleware as a sequence of decisions. The caller performs the one
//! step the middleware asks for (judging whether an access token is due for renewal) and
//! hands back what came of it.
use vstd::prelude::*;
use crate::constants::APP_NAME;
use crate::auth::{
    law_generated_token_identifies_user, tokens_can_fail, claims_view, decode_token, generate_tokens, is_generated_token, spec_validate, validate_access_token,
    validate_refresh_token, validation_of, token_checks_out, AuthConfig, TokenClaimsView, AuthenticatedUser, TokenClaims, TokenError,
    TokenRefresh, ValidationOutcome, ACCESS_TOKEN_TYPE, REFRESH_TOKEN_TYPE,
};
use crate::claims::{parse_claims_json, spec_parse_claims};
use crate::jwt::jwt_claims_text;
use crate::cookies::{
    build_auth_cookies, cookie_path, extract_tokens, is_admin_path, is_auth_cookie, spec_is_admin_path, AuthCookie, AuthError,
    ACCESS_COOKIE_NAME, REFRESH_COOKIE_NAME,
};

verus! {

/// Checks the tokens a request comes with, renews them where needed, and refuses requests
/// without a valid token.
pub struct AuthMiddleware {
    pub config: AuthConfig,
}

/// What the middleware does next.
pub enum AuthStep {
    /// The access token is valid: judge whether it is due for renewal and call
    /// `after_refresh_window`.
    CheckRefreshWindow { user: AuthenticatedUser },
    /// Let the request through as `user`; where `renewal` is present, set the cookies of
    /// `renewal_cookies` on the response.
    Accept { user: AuthenticatedUser, renewal: Option<TokenRefresh> },
    /// Refuse the request.
    Reject(AuthError),
}

/// Whether the step is a refusal because a token was refused as `Invalid`.
pub open spec fn rejects_invalid(s: AuthStep) -> bool {
    s matches AuthStep::Reject(AuthError::Token(TokenError::Invalid))
}

/// Whether the step accepts `user` together with freshly generated tokens for that user.
pub open spec fn accepts_with_renewal(s: AuthStep, user: AuthenticatedUser, config: AuthConfig) -> bool {
    s matches AuthStep::Accept { user: u, renewal: Some(t) } && u.user_id == user.user_id && u.claims@
        == user.claims@ && is_generated_token(t.access_token@, user.user_id, ACCESS_TOKEN_TYPE@, config.access_minutes, config.jwt_secret@)
        && is_generated_token(t.refresh_token@, user.user_id, REFRESH_TOKEN_TYPE@, config.refresh_minutes, config.jwt_secret@)
}

/// Whether the token checks out under the secret and its claims text reads back as `claims`,
/// which validate against `token_type` to the user `user_id`.
pub open spec fn token_identifies(
    token: Seq<char>,
    secret: Seq<char>,
    token_type: Seq<char>,
    claims: TokenClaimsView,
    user_id: i64,
) -> bool {
    &&& jwt_claims_text(token) matches Some(j) && token_checks_out(token, j, secret) && spec_parse_claims(j) == Some(
        claims,
    )
    &&& spec_validate(Some(claims), token_type) == ValidationOutcome::User(user_id)
}

/// The round trip of tokens: where a token that this service generated for a user (with this
/// secret and type) is accepted by the middleware as some user, it is accepted as that user,
/// with claims issued by this service.
pub proof fn law_generated_token_accepted_as_its_user(
    token: Seq<char>,
    secret: Seq<char>,
    token_type: Seq<char>,
    minutes: i64,
    user_id: i64,
    claims: TokenClaimsView,
    accepted_id: i64,
)
    requires
        is_generated_token(token, user_id, token_type, minutes, secret),
        token_identifies(token, secret, token_type, claims, accepted_id),
    ensures
        accepted_id == user_id,
        claims.iss == APP_NAME@,
{
    law_generated_token_identifies_user(token, user_id, token_type, minutes, secret);
}

/// The steps that falling back on the refresh token may reach: the request goes through with
/// new tokens as the user the refresh token identifies, or it is refused because a token was
/// refused or could not be made.
pub open spec fn refresh_fallback(s: AuthStep, refresh_token: Seq<char>, config: AuthConfig) -> bool {
    ||| s matches AuthStep::Accept { user: u, renewal: Some(_) } && accepts_with_renewal(s, u, config) && token_identifies(
        refresh_token,
        config.jwt_secret@,
        REFRESH_TOKEN_TYPE@,
        u.claims@,
        u.user_id,
    )
    ||| s matches AuthStep::Reject(AuthError::Token(_))
}

/// The step for claims read back from a refresh token (`None` where they did not read): with
/// valid claims, acceptance with new tokens (or a refusal where they could not be made);
/// otherwise the refusal that the validation gives.
pub open spec fn after_refresh_claims_step(s: AuthStep, claims: Option<TokenClaimsView>, config: AuthConfig) -> bool {
    match spec_validate(claims, REFRESH_TOKEN_TYPE@) {
        ValidationOutcome::User(id) => {
            ||| s matches AuthStep::Accept { user: u, renewal: Some(_) } && u.user_id == id && Some(u.claims@) == claims
                && accepts_with_renewal(s, u, config)
            ||| rejects_invalid(s) && tokens_can_fail(config)
        },
        _ => s matches AuthStep::Reject(AuthError::Token(e)) && validation_of(Err(e)) == spec_validate(
            claims,
            REFRESH_TOKEN_TYPE@,
        ),
    }
}

impl AuthMiddleware {
    /// The settings are well formed.
    pub open spec fn wf(&self) -> bool {
        self.config.wf()
    }

    /// Starts checking a request from the values of its access and refresh cookies: the
    /// access token is decoded, read back and validated; where that fails, the refresh token
    /// is.
    pub fn begin(&self, access_cookie: Option<String>, refresh_cookie: Option<String>) -> (r: AuthStep)
        requires
            self.wf(),
        ensures
            access_cookie is None ==> (r matches AuthStep::Reject(AuthError::Unauthorized(m)) && m@ == "No access token"@),
            access_cookie is Some && refresh_cookie is None ==> (r matches AuthStep::Reject(
                AuthError::Unauthorized(m),
            ) && m@ == "No refresh token"@),
            r matches AuthStep::CheckRefreshWindow { user } ==> access_cookie is Some && token_identifies(
                access_cookie->0@,
                self.config.jwt_secret@,
                ACCESS_TOKEN_TYPE@,
                user.claims@,
                user.user_id,
            ),
            (access_cookie is Some && refresh_cookie is Some) ==> (r is CheckRefreshWindow || refresh_fallback(
                r,
                refresh_cookie->0@,
                self.config,
            )),
    {
        match extract_tokens(access_cookie, refresh_cookie) {
            Err(e) => AuthStep::Reject(e),
            Ok((access, refresh)) => {
                let decoded = decode_token(access.as_str(), self.config.jwt_secret.as_str());
                self.after_access_decoded(decoded, refresh)
            },
        }
    }

    /// Continues once the access token has been checked (`Ok` with its claims text): claims
    /// that read back and validate lead to the renewal question; anything else falls back on
    /// the refresh token.
    pub fn after_access_decoded(&self, decoded: Result<String, TokenError>, refresh_token: String) -> (r: AuthStep)
        requires
            self.wf(),
        ensures
            decoded matches Ok(j) ==> (spec_validate(spec_parse_claims(j@), ACCESS_TOKEN_TYPE@) is User ==> (r matches AuthStep::CheckRefreshWindow { user }
                && Some(user.claims@) == spec_parse_claims(j@) && spec_validate(Some(user.claims@), ACCESS_TOKEN_TYPE@)
                == ValidationOutcome::User(user.user_id))),
            !(decoded matches Ok(j) && spec_validate(spec_parse_claims(j@), ACCESS_TOKEN_TYPE@) is User) ==> refresh_fallback(
                r,
                refresh_token@,
                self.config,
            ),
    {
        match decoded {
            Ok(claims_json) => self.after_access_claims(parse_claims_json(claims_json.as_str()), refresh_token),
            Err(_) => self.try_refresh(refresh_token),
        }
    }

    /// Falls back on the refresh token: checks it, reads its claims back and validates them,
    /// or refuses the request as `Invalid` where the check fails (which depends on the clock).
    pub fn try_refresh(&self, refresh_token: String) -> (r: AuthStep)
        requires
            self.wf(),
        ensures
            refresh_fallback(r, refresh_token@, self.config),
    {
        let decoded = decode_token(refresh_token.as_str(), self.config.jwt_secret.as_str());
        self.after_refresh_decoded(decoded)
    }

    /// Continues once the refresh token has been checked (`Ok` with its claims text).
    pub fn after_refresh_decoded(&self, decoded: Result<String, TokenError>) -> (r: AuthStep)
        requires
            self.wf(),
            decoded matches Err(e) ==> e is Invalid,
        ensures
            decoded matches Ok(j) ==> after_refresh_claims_step(r, spec_parse_claims(j@), self.config),
            decoded is Err ==> rejects_invalid(r),
    {
        match decoded {
            Ok(claims_json) => self.after_refresh_claims(parse_claims_json(claims_json.as_str())),
            Err(e) => AuthStep::Reject(AuthError::Token(e)),
        }
    }

    /// Continues with the claims read back from the access token (`None` where they did not
    /// read). A valid access token leads to the renewal question; any other falls back on the
    /// refresh token.
    pub fn after_access_claims(&self, claims: Option<TokenClaims>, refresh_token: String) -> (r: AuthStep)
        requires
            self.wf(),
        ensures
            spec_validate(claims_view(claims), ACCESS_TOKEN_TYPE@) matches ValidationOutcome::User(id) ==> (r matches AuthStep::CheckRefreshWindow { user }
                && user.user_id == id && user.claims@ == claims->0@),
            !(spec_validate(claims_view(claims), ACCESS_TOKEN_TYPE@) is User) ==> refresh_fallback(
                r,
                refresh_token@,
                self.config,
            ),
    {
        match validate_access_token(claims) {
            Ok(user) => AuthStep::CheckRefreshWindow { user },
            Err(_) => self.try_refresh(refresh_token),
        }
    }

    /// Continues once it is known whether the valid access token is due for renewal: if not,
    /// the request goes through as it is; if so, new tokens are made for the user.
    pub fn after_refresh_window(&self, user: AuthenticatedUser, needs_refresh: bool) -> (r: AuthStep)
        requires
            self.wf(),
        ensures
            !needs_refresh ==> (r matches AuthStep::Accept { user: u, renewal: None } && u.user_id == user.user_id
                && u.claims@ == user.claims@),
            needs_refresh ==> (accepts_with_renewal(r, user, self.config) || (rejects_invalid(r) && tokens_can_fail(
                self.config,
            ))),
    {
        if !needs_refresh {
            return AuthStep::Accept { user, renewal: None };
        }
        let generated = generate_tokens(user.user_id, &self.config);
        self.after_renewal(user, generated)
    }

    /// Continues once new tokens were made for the user (or making them failed).
    pub fn after_renewal(&self, user: AuthenticatedUser, generated: Result<(String, String), TokenError>) -> (r: AuthStep)
        ensures
            generated matches Ok((a, b)) ==> (r matches AuthStep::Accept { user: u, renewal: Some(t) }
                && u.user_id == user.user_id && u.claims@ == user.claims@ && t.access_token@ == a@
                && t.refresh_token@ == b@),
            generated matches Err(e) ==> (r matches AuthStep::Reject(AuthError::Token(e2)) && e2 == e),
    {
        match generated {
            Ok((access_token, refresh_token)) => AuthStep::Accept {
                user,
                renewal: Some(TokenRefresh { access_token, refresh_token }),
            },
            Err(e) => AuthStep::Reject(AuthError::Token(e)),
        }
    }

    /// Continues with the claims read back from the refresh token (`None` where they did not
    /// read): a valid refresh token lets the request through with new tokens; otherwise the
    /// request is refused with the refresh token's error.
    pub fn after_refresh_claims(&self, claims: Option<TokenClaims>) -> (r: AuthStep)
        requires
            self.wf(),
        ensures
            after_refresh_claims_step(r, claims_view(claims), self.config),
    {
        match validate_refresh_token(claims) {
            Ok(user) => {
                let generated = generate_tokens(user.user_id, &self.config);
                self.after_renewal(user, generated)
            },
            Err(e) => AuthStep::Reject(AuthError::Token(e)),
        }
    }

    /// The cookies that carry renewed tokens on the response to a request for `request_path`:
    /// for the admin routes where the path lies under them, for the public routes otherwise.
    pub fn renewal_cookies(&self, renewal: &TokenRefresh, request_path: &str) -> (r: (AuthCookie, AuthCookie))
        ensures
            is_auth_cookie(
                r.0,
                ACCESS_COOKIE_NAME@,
                renewal.access_token@,
                self.config.access_minutes,
                cookie_path(spec_is_admin_path(request_path@)),
            ),
            is_auth_cookie(
                r.1,
                REFRESH_COOKIE_NAME@,
                renewal.refresh_token@,
                self.config.refresh_minutes,
                cookie_path(spec_is_admin_path(request_path@)),
            ),
    {
        let is_admin = is_admin_path(request_path);
        build_auth_cookies(renewal.access_token.as_str(), renewal.refresh_token.as_str(), is_admin, &self.config)
    }
}

} // verus!
