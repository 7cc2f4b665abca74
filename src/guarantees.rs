use crate::error::Error;
use crate::guard::{bearer_prefix, guard_outcome, header_token};
use crate::jwt::hs256_claims;
use crate::role::{lemma_role_text_round_trip, role_satisfies, role_text, Role};
use crate::token::{expiry_of, issued};
use vstd::prelude::*;
use vstd::utf8::*;

verus! {

/// The header value that presents `token` as a bearer credential.
pub open spec fn bearer_header(token: Seq<char>) -> Seq<u8> {
    bearer_prefix() + encode_utf8(token)
}

/// A bearer header gives back exactly the token it presents.
pub proof fn lemma_bearer_header_token(token: Seq<char>)
    ensures
        header_token(Some(bearer_header(token))) == Ok::<Seq<char>, Error>(token),
{
    let b = bearer_header(token);
    assert(b.subrange(0, 7) =~= bearer_prefix());
    assert(b.subrange(7, b.len() as int) =~= encode_utf8(token));
    encode_utf8_valid_utf8(token);
    encode_utf8_decode_utf8(token);
}

/// A token issued to `sub` with `role`, presented before it expires to an
/// operation whose required role `role` satisfies, lets the operation through
/// and yields `sub`.
pub proof fn lemma_issued_token_authorizes(
    token: Seq<char>,
    sub: Seq<char>,
    role: Role,
    required: Role,
    issued_at: i64,
    now: i64,
    secret: Seq<u8>,
)
    requires
        issued(token, sub, role, issued_at, secret),
        role_satisfies(role, required),
        now <= expiry_of(issued_at),
    ensures
        guard_outcome(Some(bearer_header(token)), required, now, secret) == Ok::<Seq<char>, Error>(sub),
{
    lemma_bearer_header_token(token);
    lemma_role_text_round_trip(role);
}

/// A token that has expired, or that does not verify at all, is refused as
/// invalid, whatever role the operation asks for.
pub proof fn lemma_expired_token_rejected(token: Seq<char>, required: Role, now: i64, secret: Seq<u8>)
    requires
        forall|c: (Seq<char>, Seq<char>, u64)| hs256_claims(token, secret) == Some(c) ==> (c.2 as int) < now,
    ensures
        guard_outcome(Some(bearer_header(token)), required, now, secret) == Err::<Seq<char>, Error>(Error::JWTTokenError),
{
    lemma_bearer_header_token(token);
    if hs256_claims(token, secret) is Some {
        let c = hs256_claims(token, secret)->Some_0;
        assert(hs256_claims(token, secret) == Some(c));
    }
}

/// A token that does not verify under the guard's secret (one signed with
/// another secret, or tampered with) is refused as invalid.
pub proof fn lemma_unverified_token_rejected(token: Seq<char>, required: Role, now: i64, secret: Seq<u8>)
    requires
        hs256_claims(token, secret) is None,
    ensures
        guard_outcome(Some(bearer_header(token)), required, now, secret) == Err::<Seq<char>, Error>(Error::JWTTokenError),
{
    lemma_bearer_header_token(token);
}

/// For a valid, unexpired token, an operation that asks for `Admin` lets
/// through a token of `Admin` and refuses one of `User` as unauthorized.
pub proof fn lemma_admin_requirement(
    token: Seq<char>,
    sub: Seq<char>,
    held: Role,
    exp: u64,
    now: i64,
    secret: Seq<u8>,
)
    requires
        hs256_claims(token, secret) == Some((sub, role_text(held), exp)),
        now <= exp,
    ensures
        held == Role::Admin ==> guard_outcome(Some(bearer_header(token)), Role::Admin, now, secret)
            == Ok::<Seq<char>, Error>(sub),
        held == Role::User ==> guard_outcome(Some(bearer_header(token)), Role::Admin, now, secret)
            == Err::<Seq<char>, Error>(Error::Unauthorized),
{
    lemma_bearer_header_token(token);
    lemma_role_text_round_trip(held);
}

/// For a valid, unexpired token, an operation that asks for `User` lets
/// through a token of either role.
pub proof fn lemma_user_requirement(
    token: Seq<char>,
    sub: Seq<char>,
    held: Role,
    exp: u64,
    now: i64,
    secret: Seq<u8>,
)
    requires
        hs256_claims(token, secret) == Some((sub, role_text(held), exp)),
        now <= exp,
    ensures
        guard_outcome(Some(bearer_header(token)), Role::User, now, secret) == Ok::<Seq<char>, Error>(sub),
{
    lemma_bearer_header_token(token);
}

/// No header is a missing credential; a header that does not start with the
/// bearer prefix is a malformed one.
pub proof fn lemma_credential_extraction(header: Seq<u8>, required: Role, now: i64, secret: Seq<u8>)
    ensures
        guard_outcome(None, required, now, secret) == Err::<Seq<char>, Error>(Error::NoAuthHeaderError),
        !(header.len() >= 7 && header.subrange(0, 7) == bearer_prefix()) ==> guard_outcome(
            Some(header),
            required,
            now,
            secret,
        ) == Err::<Seq<char>, Error>(Error::InvalidAuthError),
{
}

} // verus!
