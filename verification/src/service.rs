//! The service operations the HTTP collaborator calls: extracting a bearer
//! credential from an `Authorization` header value, authorizing a request,
//! and the full challenge-verification / credential-issuance step.

use vstd::prelude::*;

use crate::auth::{auth_outcome, issue, jwt_of, validate, Claims};
use crate::error::CJAError;
use crate::seal::Sealer;
use vstd::string::StringSliceAdditionalSpecFns;
use vstd::string::StrSliceExecFns;

verus! {

/// The scheme prefix a well-formed `Authorization` header value carries.
pub open spec fn bearer_prefix() -> Seq<char> {
    "Bearer "@
}

/// Does the header value name the bearer scheme?
pub open spec fn has_bearer_prefix(h: Seq<char>) -> bool {
    h.len() >= 7 && h.subrange(0, 7) == bearer_prefix()
}

/// The rest of a header value after its scheme prefix.
pub open spec fn bearer_rest(h: Seq<char>) -> Seq<char> {
    h.subrange(7, h.len() as int)
}

/// The credential a header value carries: everything after the scheme
/// prefix, with a repeated prefix stripped again — `"Bearer Bearer x"`
/// carries `"x"`.
pub open spec fn bearer_token(h: Seq<char>) -> Seq<char>
    decreases h.len(),
{
    if has_bearer_prefix(h) {
        bearer_token(bearer_rest(h))
    } else {
        h
    }
}

/// Does this header value name the bearer scheme? (Exec form of
/// [`has_bearer_prefix`].)
fn starts_with_bearer(s: &str) -> (r: bool)
    ensures
        r == has_bearer_prefix(s@),
{
    proof {
        reveal_strlit("Bearer ");
    }
    let prefix = "Bearer ";
    let n = s.unicode_len();
    if n < 7 {
        return false;
    }
    let mut i: usize = 0;
    while i < 7
        invariant
            0 <= i <= 7,
            7 <= n,
            n as nat == s@.len(),
            prefix@ == bearer_prefix(),
            prefix@.len() == 7,
            forall|j: int| 0 <= j < i ==> s@[j] == bearer_prefix()[j],
        decreases 7 - i,
    {
        if s.get_char(i) != prefix.get_char(i) {
            proof {
                assert(!has_bearer_prefix(s@)) by {
                    assert(s@.subrange(0, 7)[i as int] == s@[i as int]);
                }
            }
            return false;
        }
        i = i + 1;
    }
    proof {
        assert(s@.subrange(0, 7) =~= bearer_prefix());
    }
    true
}

/// Extracts the bearer credential from an `Authorization` header value, if
/// one was presented: a missing header is [`CJAError::NoAuthHeader`], one
/// that does not name the bearer scheme is [`CJAError::InvalidAuthHeader`].
pub fn jwt_from_header(header: Option<&String>) -> (r: Result<String, CJAError>)
    ensures
        header is None ==> r == Err::<String, CJAError>(CJAError::NoAuthHeader),
        header matches Some(h) ==> match r {
            Ok(t) => has_bearer_prefix(h@) && t@ == bearer_token(h@),
            Err(e) => e == CJAError::InvalidAuthHeader && !has_bearer_prefix(h@),
        },
{
    let h = match header {
        Some(h) => h,
        None => {
            return Err(CJAError::NoAuthHeader);
        },
    };
    let mut rest: &str = h.as_str();
    if !starts_with_bearer(rest) {
        return Err(CJAError::InvalidAuthHeader);
    }
    let mut go = true;
    while go
        invariant
            header == Some(h),
            has_bearer_prefix(h@),
            go == has_bearer_prefix(rest@),
            bearer_token(rest@) == bearer_token(h@),
        decreases rest@.len(),
    {
        let n = rest.unicode_len();
        rest = rest.substring_char(7, n);
        go = starts_with_bearer(rest);
    }
    Ok(rest.to_owned())
}

/// The complete authorization pipeline, as a function of the secret, the
/// presented header and the clock alone: extract the bearer credential, then
/// validate it (see [`auth_outcome`]).
pub open spec fn authorize_outcome(secret: Seq<u8>, header: Option<Seq<char>>, now: u64) -> Result<
    Claims,
    CJAError,
> {
    match header {
        None => Err(CJAError::NoAuthHeader),
        Some(h) => if has_bearer_prefix(h) {
            auth_outcome(secret, bearer_token(h), now)
        } else {
            Err(CJAError::InvalidAuthHeader)
        },
    }
}

/// Authorizes one protected request: checks the presented `Authorization`
/// header value against the signing secret and the clock, returning exactly
/// what [`authorize_outcome`] describes — and therefore, like
/// [`validate`], consuming no state between calls.
pub fn authorize(secret: &Vec<u8>, header: Option<&String>, now: u64) -> (r: Result<
    Claims,
    CJAError,
>)
    ensures
        header is None ==> r == authorize_outcome(secret@, None, now),
        header matches Some(h) ==> r == authorize_outcome(secret@, Some(h@), now),
{
    let token = match jwt_from_header(header) {
        Ok(t) => t,
        Err(e) => {
            return Err(e);
        },
    };
    validate(secret, &token, now)
}

/// Byte-for-byte equality of two byte vectors.
fn bytes_eq(a: &Vec<u8>, b: &Vec<u8>) -> (r: bool)
    ensures
        r == (a@ == b@),
{
    if a.len() != b.len() {
        return false;
    }
    let mut i: usize = 0;
    while i < a.len()
        invariant
            i <= a.len(),
            a.len() == b.len(),
            forall|j: int| 0 <= j < i ==> a@[j] == b@[j],
        decreases a.len() - i,
    {
        if a[i] != b[i] {
            return false;
        }
        i = i + 1;
    }
    proof {
        assert(a@ =~= b@);
    }
    true
}

/// Verifies a submitted challenge answer and, on success, issues a bearer
/// credential expiring `ttl_minutes` from `now`.
///
/// The checks run in order, each a distinct terminal outcome: a token that
/// does not unseal is rejected as bad input
/// ([`CJAError::InvalidPayload`]); then the submitted answer
/// must equal the sealed one exactly ([`CJAError::CaptchaInvalid`]); only
/// then is the sealed expiry held against the clock
/// ([`CJAError::CaptchaExpired`]). Checking the answer before the expiry
/// keeps a correct-but-late answer distinguishable from a wrong one.
///
/// For every token this sealer actually sealed, the contract pins all three
/// outcomes: wrong answers are wrong, correct-but-expired answers are
/// expired, and correct unexpired answers are owed a credential.
pub fn verify_and_issue(
    sealer: &Sealer,
    secret: &Vec<u8>,
    submitted: &str,
    token: &String,
    ttl_minutes: u64,
    now: u64,
) -> (r: Result<String, CJAError>)
    requires
        sealer.wf(),
        now + ttl_minutes * 60 <= u64::MAX,
    ensures
        match r {
            Ok(jwt) => {
                &&& sealer.unseal_outcome(token@) matches Ok(p)
                &&& p.1 == submitted.spec_bytes()
                &&& p.0 >= now
                &&& jwt@ == jwt_of(secret@, (now + ttl_minutes * 60) as u64)
            },
            Err(e) => match sealer.unseal_outcome(token@) {
                Err(_) => e == CJAError::InvalidPayload,
                Ok(p) => if p.1 != submitted.spec_bytes() {
                    e == CJAError::CaptchaInvalid
                } else {
                    p.0 < now && e == CJAError::CaptchaExpired
                },
            },
        },
        forall|exp: u64, sol: Seq<u8>|
            token@ == sealer.sealed_token(exp, sol) ==> {
                &&& (sol != submitted.spec_bytes() ==> r == Err::<String, CJAError>(
                    CJAError::CaptchaInvalid,
                ))
                &&& (sol == submitted.spec_bytes() && exp < now ==> r == Err::<String, CJAError>(
                    CJAError::CaptchaExpired,
                ))
                &&& (sol == submitted.spec_bytes() && exp >= now ==> (r matches Ok(jwt) && jwt@
                    == jwt_of(secret@, (now + ttl_minutes * 60) as u64)))
            },
{
    let data = match sealer.unseal(token) {
        Ok(d) => d,
        Err(_) => {
            return Err(CJAError::InvalidPayload);
        },
    };
    let sub = submitted.as_bytes_vec();
    if !bytes_eq(&sub, &data.solution) {
        return Err(CJAError::CaptchaInvalid);
    }
    if data.exp < now {
        return Err(CJAError::CaptchaExpired);
    }
    let exp = now + ttl_minutes * 60;
    Ok(issue(secret, exp))
}

} // verus!
