use crate::error::Error;
use crate::jwt::{hs256_claims, hs256_token, now_timestamp, sign_hs256};
use crate::role::{role_text, Role};
use vstd::prelude::*;

verus! {

/// How long a token stays valid after it is issued, in seconds.
pub const VALIDITY_SECONDS: i64 = 60;

/// The signed payload of a token.
pub struct Claims {
    /// The subject: who the token speaks for.
    pub sub: String,
    /// The text of the subject's role.
    pub role: String,
    /// The expiry, in seconds since the Unix epoch.
    pub exp: u64,
}

impl View for Claims {
    type V = (Seq<char>, Seq<char>, u64);

    open spec fn view(&self) -> (Seq<char>, Seq<char>, u64) {
        (self.sub@, self.role@, self.exp)
    }
}

/// The expiry of a token issued at `now`.
pub open spec fn expiry_of(now: i64) -> int {
    now + VALIDITY_SECONDS
}

/// `token` is one issued at `now` to `sub` with `role` under `secret`: it
/// decodes under that secret to exactly those claims, with the expiry
/// `now + VALIDITY_SECONDS`.
pub open spec fn issued(token: Seq<char>, sub: Seq<char>, role: Role, now: i64, secret: Seq<u8>) -> bool {
    &&& sub.len() > 0
    &&& expiry_of(now) >= 0
    &&& hs256_claims(token, secret) == Some((sub, role_text(role), expiry_of(now) as u64))
}

/// Issues a token for `uid` with `role`, as at the time `now`.
/// An empty subject, or a time so early that the expiry would fall before the
/// epoch, gives `JWTTokenCreationError`; any other input gives the token.
pub fn create_token_at(uid: &str, role: &Role, now: i64, secret: &[u8]) -> (r: Result<String, Error>)
    ensures
        uid@.len() == 0 || expiry_of(now) < 0 ==> r == Err::<String, Error>(Error::JWTTokenCreationError),
        uid@.len() > 0 && expiry_of(now) >= 0 ==> r is Ok,
        r is Ok ==> r->Ok_0@ == hs256_token(uid@, role_text(*role), expiry_of(now) as u64, secret@),
        r is Ok ==> issued(r->Ok_0@, uid@, *role, now, secret@),
{
    if uid.is_empty() {
        return Err(Error::JWTTokenCreationError);
    }
    let exp: u64 = if now >= 0 {
        now as u64 + VALIDITY_SECONDS as u64
    } else if now >= -VALIDITY_SECONDS {
        (now + VALIDITY_SECONDS) as u64
    } else {
        return Err(Error::JWTTokenCreationError);
    };
    match sign_hs256(uid, role.as_str(), exp, secret) {
        Some(token) => Ok(token),
        None => Err(Error::JWTTokenCreationError),
    }
}

/// Issues a token for `uid` with `role`, valid for `VALIDITY_SECONDS` from now.
pub fn create_token(uid: &str, role: &Role, secret: &[u8]) -> (r: Result<String, Error>)
    ensures
        uid@.len() == 0 ==> r == Err::<String, Error>(Error::JWTTokenCreationError),
        uid@.len() > 0 ==> r is Ok,
        r is Ok ==> exists|now: i64| now >= 0 && #[trigger] issued(r->Ok_0@, uid@, *role, now, secret@),
{
    let now = now_timestamp();
    create_token_at(uid, role, now, secret)
}

} // verus!
