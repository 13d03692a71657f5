//! The credential issuer/validator: mints and checks short-lived bearer
//! credentials proving that a challenge was solved correctly and recently.
//!
//! A credential is a JWT signed with HS512 over the single claim `{exp}`.
//! The signing and the signature check come from an outside crate behind
//! trusted wrappers; the expiry check against the caller's clock is verified
//! code, so validation is a pure function of the credential, the secret and
//! the instant it runs at.

use vstd::prelude::*;

use crate::error::CJAError;

verus! {

/// The claims a credential carries: only the unix second it expires at.
/// No identity fields — the credential proves "solved a challenge", not
/// "is user X".
#[derive(Clone, Copy, Debug, PartialEq, Eq, Structural)]
pub struct Claims {
    pub exp: u64,
}

/// What `jsonwebtoken::encode` returns for an HS512 signing of the claims
/// `{exp}` under the given secret.
pub uninterp spec fn jwt_of(secret: Seq<u8>, exp: u64) -> Seq<char>;

/// What `jsonwebtoken::decode` returns for the given secret and token, with
/// expiry validation turned off: the `exp` claim when the token's structure
/// and HS512 signature check out, nothing otherwise.
pub uninterp spec fn jwt_decoded(secret: Seq<u8>, token: Seq<char>) -> Option<u64>;

/// Relies on `jsonwebtoken::encode` with `Algorithm::HS512` and an HMAC
/// secret: deterministic in its arguments, and it cannot fail — the only
/// error paths are a key incompatible with the algorithm (an HMAC secret
/// matches HS512) and claims that do not serialize (a plain JSON object
/// always does).
#[verifier::external_body]
fn jwt_encode(secret: &Vec<u8>, exp: u64) -> (r: String)
    ensures
        r@ == jwt_of(secret@, exp),
{
    let mut claims = serde_json::Map::new();
    claims.insert("exp".to_owned(), serde_json::Value::from(exp));
    let header = jsonwebtoken::Header::new(jsonwebtoken::Algorithm::HS512);
    let key = jsonwebtoken::EncodingKey::from_secret(secret.as_slice());
    jsonwebtoken::encode(&header, &serde_json::Value::Object(claims), &key)
        .expect("signing a plain claims object with an HMAC secret cannot fail")
}

/// Relies on `jsonwebtoken::decode` restricted to `Algorithm::HS512`, with
/// expiry and audience validation turned off and no required claims: a pure
/// structure-and-signature check, deterministic in its arguments, and it
/// inverts `jsonwebtoken::encode` — a token signed under the same secret
/// yields back exactly the `exp` claim that was signed.
#[verifier::external_body]
fn jwt_decode(secret: &Vec<u8>, token: &String) -> (r: Option<u64>)
    ensures
        r == jwt_decoded(secret@, token@),
        r is None ==> forall|exp: u64| token@ != jwt_of(secret@, exp),
        r matches Some(e) ==> forall|exp: u64| token@ == jwt_of(secret@, exp) ==> e == exp,
{
    let mut validation = jsonwebtoken::Validation::new(jsonwebtoken::Algorithm::HS512);
    validation.validate_exp = false;
    validation.validate_aud = false;
    validation.required_spec_claims.clear();
    let key = jsonwebtoken::DecodingKey::from_secret(secret.as_slice());
    match jsonwebtoken::decode::<serde_json::Value>(token.as_str(), &key, &validation) {
        Ok(data) => data.claims.get("exp").and_then(|v| v.as_u64()),
        Err(_) => None,
    }
}

/// The complete validation pipeline, as a function of the secret, the
/// credential and the clock alone: a failed structure-or-signature check is
/// forbidden; a checked credential whose expiry has passed is expired; what
/// is left is valid, and carries the signed expiry.
pub open spec fn auth_outcome(secret: Seq<u8>, token: Seq<char>, now: u64) -> Result<
    Claims,
    CJAError,
> {
    match jwt_decoded(secret, token) {
        None => Err(CJAError::Forbidden),
        Some(exp) => if exp <= now {
            Err(CJAError::JWTExpired)
        } else {
            Ok(Claims { exp })
        },
    }
}

/// Mints a credential that expires thirty minutes from `now`, signed under
/// the given secret.
pub fn create_jwt(secret: &Vec<u8>, now: u64) -> (r: String)
    requires
        now + crate::JWT_TTL_SECONDS <= u64::MAX,
    ensures
        r@ == jwt_of(secret@, (now + crate::JWT_TTL_SECONDS) as u64),
{
    issue(secret, now + crate::JWT_TTL_SECONDS)
}

/// Mints a credential with the given expiry, signed under the given secret.
pub fn issue(secret: &Vec<u8>, exp: u64) -> (r: String)
    ensures
        r@ == jwt_of(secret@, exp),
{
    jwt_encode(secret, exp)
}

/// Checks a presented credential against the signing secret and the clock,
/// returning exactly what [`auth_outcome`] describes.
///
/// Two laws come with it:
///
/// - credential round trip: every credential issued under this secret
///   validates to the very expiry it was issued with, until that expiry
///   passes, and is expired — never forbidden — afterwards;
/// - idempotence: the outcome is a function of the arguments alone (see
///   [`auth_outcome`]); no state is consumed, so repeating a validation at
///   the same instant repeats its result.
pub fn validate(secret: &Vec<u8>, jwt: &String, now: u64) -> (r: Result<Claims, CJAError>)
    ensures
        r == auth_outcome(secret@, jwt@, now),
        r matches Ok(c) ==> c.exp > now,
        forall|exp: u64|
            jwt@ == jwt_of(secret@, exp) ==> r == (if exp > now {
                Ok::<Claims, CJAError>(Claims { exp })
            } else {
                Err::<Claims, CJAError>(CJAError::JWTExpired)
            }),
{
    match jwt_decode(secret, jwt) {
        None => Err(CJAError::Forbidden),
        Some(exp) => if exp <= now {
            Err(CJAError::JWTExpired)
        } else {
            Ok(Claims { exp })
        },
    }
}

/// Validation consumes no state: its outcome is a function of the secret,
/// the credential and the instant alone, so two validations of one
/// credential at one instant agree.
pub proof fn lemma_validate_idempotent(
    secret: Seq<u8>,
    token: Seq<char>,
    now: u64,
    r1: Result<Claims, CJAError>,
    r2: Result<Claims, CJAError>,
)
    requires
        r1 == auth_outcome(secret, token, now),
        r2 == auth_outcome(secret, token, now),
    ensures
        r1 == r2,
{
}

} // verus!
