use crate::token::Claims;
use vstd::prelude::*;
use vstd::utf8::*;

verus! {

/// The compact token that jsonwebtoken signs, under HS256 with the HMAC key
/// `secret`, for the claims `{"sub": sub, "role": role, "exp": exp}`.
pub uninterp spec fn hs256_token(sub: Seq<char>, role: Seq<char>, exp: u64, secret: Seq<u8>) -> Seq<char>;

/// What jsonwebtoken decodes from `token` under HS256 with the HMAC key
/// `secret`, expiry left unchecked: the text claims `sub` and `role` and the
/// integer claim `exp`, or nothing when the token is malformed, its signature
/// does not verify, or one of those claims is missing or of another type.
pub uninterp spec fn hs256_claims(token: Seq<char>, secret: Seq<u8>) -> Option<(Seq<char>, Seq<char>, u64)>;

/// Relies on jsonwebtoken::encode with an HS256 header and
/// EncodingKey::from_secret: the token is determined by the claims and the
/// key, and decoding it with the same key gives the claims back. It fails only
/// when the key's family differs from the header's algorithm, never for an
/// HMAC secret under HS256; its serialization of a header and a map of strings
/// and an integer cannot fail either.
#[verifier::external_body]
pub(crate) fn sign_hs256(sub: &str, role: &str, exp: u64, secret: &[u8]) -> (r: Option<String>)
    ensures
        r is Some,
        r is Some ==> r->Some_0@ == hs256_token(sub@, role@, exp, secret@),
        r is Some ==> hs256_claims(r->Some_0@, secret@) == Some((sub@, role@, exp)),
{
    let mut claims = serde_json::Map::new();
    claims.insert("sub".to_owned(), serde_json::Value::from(sub));
    claims.insert("role".to_owned(), serde_json::Value::from(role));
    claims.insert("exp".to_owned(), serde_json::Value::from(exp));
    let header = jsonwebtoken::Header::new(jsonwebtoken::Algorithm::HS256);
    jsonwebtoken::encode(&header, &claims, &jsonwebtoken::EncodingKey::from_secret(secret)).ok()
}

/// Relies on jsonwebtoken::decode under Validation::new(HS256) with the
/// expiry check switched off (the caller compares `exp` with its own clock),
/// and on serde_json's accessors to read the three claims.
#[verifier::external_body]
pub(crate) fn verify_hs256(token: &str, secret: &[u8]) -> (r: Option<Claims>)
    ensures
        match r {
            Some(c) => hs256_claims(token@, secret@) == Some(c@),
            None => hs256_claims(token@, secret@) is None,
        },
{
    let mut validation = jsonwebtoken::Validation::new(jsonwebtoken::Algorithm::HS256);
    validation.validate_exp = false;
    let key = jsonwebtoken::DecodingKey::from_secret(secret);
    let claims = jsonwebtoken::decode::<serde_json::Value>(token, &key, &validation).ok()?.claims;
    let sub = claims.get("sub")?.as_str()?.to_owned();
    let role = claims.get("role")?.as_str()?.to_owned();
    let exp = claims.get("exp")?.as_u64()?;
    Some(Claims { sub, role, exp })
}

/// Relies on chrono::Utc::now and DateTime::timestamp: the current time in
/// whole seconds since the Unix epoch. `Utc::now` panics rather than return
/// a time before the epoch, so the value is never negative.
#[verifier::external_body]
pub(crate) fn now_timestamp() -> (r: i64)
    ensures
        r >= 0,
{
    chrono::Utc::now().timestamp()
}

/// Relies on std::str::from_utf8: it accepts exactly the valid UTF-8 byte
/// sequences and decodes them.
#[verifier::external_body]
pub(crate) fn text_from_utf8(b: &[u8]) -> (r: Option<String>)
    ensures
        r is Some <==> valid_utf8(b@),
        r is Some ==> r->Some_0@ == decode_utf8(b@),
{
    std::str::from_utf8(b).ok().map(|s| s.to_owned())
}

} // verus!
