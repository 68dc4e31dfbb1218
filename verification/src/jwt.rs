//! The calls into `jsonwebtoken` and into `chrono`'s clock.
use vstd::prelude::*;
use crate::auth::is_claims_json;

verus! {

/// The token that `jsonwebtoken::encode` produces, with the default header (HS256) and an
/// HMAC key made from the secret's bytes, for a claims part whose JSON text is `claims_json`;
/// `None` where it reports an error.
pub uninterp spec fn hs256_encoded(claims_json: Seq<char>, secret: Seq<char>) -> Option<Seq<char>>;

/// Whether the token's HS256 signature checks out under an HMAC key made from the secret's
/// bytes: the last segment is the HMAC-SHA256 of the first two, as `jsonwebtoken` computes and
/// compares it. It depends on the token and the secret alone.
pub uninterp spec fn hs256_signature_valid(token: Seq<char>, secret: Seq<char>) -> bool;

/// Whether the claims part of the token passes the checks of `jsonwebtoken::decode` that do
/// not read the clock, for a `Validation` demanding `issuer` and the registered claims named
/// in `required`: each of those that `jsonwebtoken` knows (`exp`, `nbf`, `aud`, `iss`, `sub`)
/// is present, and an `iss` claim is the issuer. It depends on its arguments alone.
pub uninterp spec fn jwt_claims_pass(token: Seq<char>, issuer: Seq<char>, required: Seq<Seq<char>>) -> bool;

/// Whether a text begins with `{` and ends with `}`, so that it has no white space around it.
pub open spec fn braced(s: Seq<char>) -> bool {
    s.len() >= 2 && s[0] == '{' && s[s.len() - 1] == '}'
}

/// Signs a claims part with HS256 (`jsonwebtoken::encode` with `Header::default()` and
/// `EncodingKey::from_secret`). The claims text is handed over as a
/// `serde_json::value::RawValue` (which refuses text that is not JSON, and drops white space
/// around it), so the token's middle segment carries exactly these bytes where the text has
/// no white space around it. The contract claims that the result is the named function of the
/// two arguments, that a token made this way carries a signature that checks out under the
/// same secret, that `decode` hands back the claims text of such a braced text unchanged, and
/// that encoding the claims text this library writes succeeds: that text is a JSON object of
/// integers and escaped strings, which `RawValue::from_string` accepts, and HS256 signing with
/// a key from `from_secret` has no failing step.
#[verifier::external_body]
pub(crate) fn jwt_encode_hs256(claims_json: &str, secret: &str) -> (r: Result<String, ()>)
    ensures
        hs256_encoded(claims_json@, secret@) == (match r {
            Ok(t) => Some(t@),
            Err(_) => None::<Seq<char>>,
        }),
        r matches Ok(t) ==> hs256_signature_valid(t@, secret@),
        r matches Ok(t) ==> (braced(claims_json@) ==> jwt_claims_text(t@) == Some(claims_json@)),
        is_claims_json(claims_json@) ==> r is Ok,
{
    let raw = match serde_json::value::RawValue::from_string(claims_json.to_string()) {
        Ok(raw) => raw,
        Err(_) => return Err(()),
    };
    let key = jsonwebtoken::EncodingKey::from_secret(secret.as_bytes());
    jsonwebtoken::encode(&jsonwebtoken::Header::default(), &raw, &key).map_err(|_| ())
}

/// The JSON text of a token's claims part, as `jsonwebtoken::decode` hands it back (through a
/// `serde_json::value::RawValue`) when it accepts the token: the base64url-decoded middle
/// segment of the token, read as one JSON value. It depends on the token alone.
pub uninterp spec fn jwt_claims_text(token: Seq<char>) -> Option<Seq<char>>;

/// Checks a token with `jsonwebtoken::decode` under HS256 and an HMAC key made from the
/// secret's bytes, demanding the given issuer and the given registered claims, and hands back
/// the JSON text of its claims part. `decode` also rejects a token whose `exp` lies in the past
/// by the clock of the machine, so whether it accepts depends on the time of the call: that is
/// left unsaid. The contract claims that an accepted token's claims text is the named function
/// of the token, that its signature checks out under the secret, and that its claims pass the
/// issuer and registered-claim checks made with these arguments.
#[verifier::external_body]
pub(crate) fn jwt_decode_hs256(token: &str, secret: &str, issuer: &str, required: &Vec<String>) -> (r:
    Result<String, ()>)
    ensures
        r matches Ok(t) ==> jwt_claims_text(token@) == Some(t@),
        r is Ok ==> hs256_signature_valid(token@, secret@),
        r is Ok ==> jwt_claims_pass(token@, issuer@, required.deep_view()),
{
    let mut validation = jsonwebtoken::Validation::new(jsonwebtoken::Algorithm::HS256);
    validation.set_issuer(&[issuer]);
    validation.set_required_spec_claims(required.as_slice());
    let key = jsonwebtoken::DecodingKey::from_secret(secret.as_bytes());
    match jsonwebtoken::decode::<Box<serde_json::value::RawValue>>(token, &key, &validation) {
        Ok(data) => Ok(data.claims.get().to_string()),
        Err(_) => Err(()),
    }
}

/// The current time as seconds since the Unix epoch (`chrono::Utc::now().timestamp()`).
/// It depends on the clock. The contract claims only its range: `Utc::now` panics on a clock
/// before the epoch and builds a `DateTime<Utc>`, whose latest instant is
/// `+262142-12-31T23:59:59Z` (8210266876799 seconds).
#[verifier::external_body]
pub(crate) fn utc_now_timestamp() -> (t: i64)
    ensures
        0 <= t <= 8210266876799,
{
    chrono::Utc::now().timestamp()
}

/// The current time as milliseconds since the Unix epoch
/// (`chrono::Utc::now().timestamp_millis()`). It depends on the clock. The contract claims
/// only its range, that of the seconds reading times 1000 plus the milliseconds.
#[verifier::external_body]
pub(crate) fn utc_now_timestamp_millis() -> (t: i64)
    ensures
        0 <= t <= 8210266876799999,
{
    chrono::Utc::now().timestamp_millis()
}

} // verus!
