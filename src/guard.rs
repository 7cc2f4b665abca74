use crate::error::Error;
use crate::jwt::{hs256_claims, now_timestamp, text_from_utf8, verify_hs256};
use crate::role::{role_from_text, Role};
use crate::token::Claims;
use vstd::prelude::*;
use vstd::utf8::*;

verus! {

/// The bytes of the bearer scheme label and its single space, `Bearer `.
pub open spec fn bearer_prefix() -> Seq<u8> {
    seq![66u8, 101u8, 97u8, 114u8, 101u8, 114u8, 32u8]
}

/// The view of an optional header value.
pub open spec fn header_view(header: Option<&[u8]>) -> Option<Seq<u8>> {
    match header {
        Some(b) => Some(b@),
        None => None,
    }
}

/// The view of optional claims.
pub open spec fn claims_view(claims: Option<Claims>) -> Option<(Seq<char>, Seq<char>, u64)> {
    match claims {
        Some(c) => Some(c@),
        None => None,
    }
}

/// The view of a text result.
pub open spec fn text_result(r: Result<String, Error>) -> Result<Seq<char>, Error> {
    match r {
        Ok(s) => Ok(s@),
        Err(e) => Err(e),
    }
}

/// The raw token that an authorization header carries: absent header,
/// missing bearer prefix and a rest that is not UTF-8 text are refused.
pub open spec fn header_token(header: Option<Seq<u8>>) -> Result<Seq<char>, Error> {
    match header {
        None => Err(Error::NoAuthHeaderError),
        Some(b) => {
            if b.len() >= 7 && b.subrange(0, 7) == bearer_prefix() && valid_utf8(b.subrange(7, b.len() as int)) {
                Ok(decode_utf8(b.subrange(7, b.len() as int)))
            } else {
                Err(Error::InvalidAuthError)
            }
        },
    }
}

/// The decision on decoded claims at the time `now`: no claims, or an expiry
/// before `now`, make the token invalid; an operation that asks for `Admin`
/// needs the role text of `Admin`; anything else yields the subject.
pub open spec fn claims_verdict(
    claims: Option<(Seq<char>, Seq<char>, u64)>,
    required: Role,
    now: i64,
) -> Result<Seq<char>, Error> {
    match claims {
        None => Err(Error::JWTTokenError),
        Some((sub, role, exp)) => {
            if (exp as int) < now as int {
                Err(Error::JWTTokenError)
            } else if required == Role::Admin && role_from_text(role) != Some(Role::Admin) {
                Err(Error::Unauthorized)
            } else {
                Ok(sub)
            }
        },
    }
}

/// The whole guard: extract the token, verify it under `secret`, then decide.
pub open spec fn guard_outcome(
    header: Option<Seq<u8>>,
    required: Role,
    now: i64,
    secret: Seq<u8>,
) -> Result<Seq<char>, Error> {
    match header_token(header) {
        Err(e) => Err(e),
        Ok(token) => claims_verdict(hs256_claims(token, secret), required, now),
    }
}

/// Whether `b` starts with the bearer prefix.
fn has_bearer_prefix(b: &[u8]) -> (r: bool)
    ensures
        r == (b@.len() >= 7 && b@.subrange(0, 7) == bearer_prefix()),
{
    if b.len() < 7 {
        return false;
    }
    let ok = b[0] == 66 && b[1] == 101 && b[2] == 97 && b[3] == 114 && b[4] == 101 && b[5] == 114 && b[6] == 32;
    if ok {
        assert(b@.subrange(0, 7) =~= bearer_prefix());
    } else {
        proof {
            if b@.subrange(0, 7) == bearer_prefix() {
                assert(forall|k: int| 0 <= k < 7 ==> b@.subrange(0, 7)[k] == b@[k]);
                assert(forall|k: int| 0 <= k < 7 ==> bearer_prefix()[k] == b@[k]);
            }
        }
    }
    ok
}

/// Extracts the raw token from an authorization header value.
pub fn jwt_from_header(header: Option<&[u8]>) -> (r: Result<String, Error>)
    ensures
        text_result(r) == header_token(header_view(header)),
{
    match header {
        None => Err(Error::NoAuthHeaderError),
        Some(b) => {
            if !has_bearer_prefix(b) {
                return Err(Error::InvalidAuthError);
            }
            let rest = vstd::slice::slice_subrange(b, 7, b.len());
            match text_from_utf8(rest) {
                Some(token) => Ok(token),
                None => Err(Error::InvalidAuthError),
            }
        },
    }
}

/// Decides on claims already decoded from a token, at the time `now`.
pub fn authorize_claims(claims: Option<Claims>, required: Role, now: i64) -> (r: Result<String, Error>)
    ensures
        text_result(r) == claims_verdict(claims_view(claims), required, now),
{
    match claims {
        None => Err(Error::JWTTokenError),
        Some(c) => {
            let expired = now > 0 && c.exp < now as u64;
            if expired {
                return Err(Error::JWTTokenError);
            }
            let held = Role::from_str(c.role.as_str());
            let admin = match held {
                Some(Role::Admin) => true,
                _ => false,
            };
            if required == Role::Admin && !admin {
                return Err(Error::Unauthorized);
            }
            Ok(c.sub)
        },
    }
}

/// Guards an operation that asks for `required`, as at the time `now`:
/// yields the subject of a valid bearer token whose role is enough.
pub fn authorize_at(header: Option<&[u8]>, required: Role, now: i64, secret: &[u8]) -> (r: Result<String, Error>)
    ensures
        text_result(r) == guard_outcome(header_view(header), required, now, secret@),
{
    match jwt_from_header(header) {
        Err(e) => Err(e),
        Ok(token) => {
            let claims = verify_hs256(token.as_str(), secret);
            authorize_claims(claims, required, now)
        },
    }
}

/// Guards an operation that asks for `required`, at the current time.
pub fn authorize(header: Option<&[u8]>, required: Role, secret: &[u8]) -> (r: Result<String, Error>)
    ensures
        exists|now: i64| now >= 0 && text_result(r) == #[trigger] guard_outcome(header_view(header), required, now, secret@),
{
    let now = now_timestamp();
    authorize_at(header, required, now, secret)
}

} // verus!
