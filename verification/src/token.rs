//! Session token codec: compact claims tokens `{id, exp}` signed with a
//! process-wide symmetric secret via HMAC-SHA256.
//!
//! Signing is deterministic in the secret and the claims, so the produced
//! token is named `signed_token_of`; what decoding-and-verifying returns for
//! a given secret and token string is named `token_claims_of`. The two names
//! are tied together by the round trip: a freshly signed token decodes to the
//! claims it was signed over. Signature validity alone is never taken as
//! proof of current validity — the manager additionally checks expiry and
//! the active-session cache.

use std::collections::BTreeMap;

use hmac::{Hmac, Mac};
use jwt::{Header, SignWithKey, Token, VerifyWithKey};
use sha2::Sha256;
use vstd::prelude::*;

verus! {

/// The compact signed token produced for these claims under this secret.
/// Stands for the result of jwt's `SignWithKey` with an HMAC-SHA256 key,
/// which is deterministic in the secret and the claims.
pub uninterp spec fn signed_token_of(secret: Seq<u8>, id: i32, exp: i64) -> Seq<char>;

/// The claims recovered from a token string under this secret: `Some((id,
/// exp))` when the token is structurally valid, its signature matches the
/// secret, and its `id` and `exp` claims parse; `None` otherwise. Stands for
/// the result of jwt's `VerifyWithKey` with an HMAC-SHA256 key followed by
/// reading the two claims, which is deterministic in the secret and the
/// token.
pub uninterp spec fn token_claims_of(secret: Seq<u8>, token: Seq<char>) -> Option<(i32, i64)>;

/// Builds and signs the claims set `{id, exp}`.
///
/// Relies on `Hmac::<Sha256>::new_from_slice`, which accepts a key of any
/// length, and on jwt's `SignWithKey`, whose HS256 signing of a string
/// claims map cannot fail; `None` is therefore never returned in practice
/// and callers may rely on `Some`. The signed token decodes back to exactly
/// the claims it was signed over.
#[verifier::external_body]
pub fn sign_claims(secret: &Vec<u8>, id: i32, exp: i64) -> (r: Option<String>)
    ensures
        r is Some,
        r matches Some(t) ==> t@ == signed_token_of(secret@, id, exp),
        r matches Some(t) ==> token_claims_of(secret@, t@) == Some((id, exp)),
{
    let key: Hmac<Sha256> = Hmac::new_from_slice(secret.as_slice()).ok()?;
    let mut claims: BTreeMap<String, String> = BTreeMap::new();
    claims.insert("id".to_string(), id.to_string());
    claims.insert("exp".to_string(), exp.to_string());
    let token = Token::new(Header::default(), claims).sign_with_key(&key).ok()?;
    Some(token.as_str().to_string())
}

/// Verifies a token's signature against the secret and reads its claims.
///
/// Relies on `Hmac::<Sha256>::new_from_slice` and jwt's `VerifyWithKey`:
/// a structurally invalid token, a signature that does not match the
/// secret, or unparseable `id`/`exp` claims all yield `None`.
#[verifier::external_body]
pub fn verify_claims(secret: &Vec<u8>, token: &String) -> (r: Option<(i32, i64)>)
    ensures
        r == token_claims_of(secret@, token@),
{
    let key: Hmac<Sha256> = Hmac::new_from_slice(secret.as_slice()).ok()?;
    let verified: Token<Header, BTreeMap<String, String>, _> =
        token.as_str().verify_with_key(&key).ok()?;
    let claims = verified.claims();
    let id = claims.get("id")?.parse::<i32>().ok()?;
    let exp = claims.get("exp")?.parse::<i64>().ok()?;
    Some((id, exp))
}

/// Two tokens signed under the same secret for different claims are
/// different strings: each decodes back to its own claims, so equal strings
/// would decode equally.
pub proof fn lemma_distinct_claims_distinct_tokens(
    secret: Seq<u8>,
    id1: i32,
    exp1: i64,
    id2: i32,
    exp2: i64,
    t1: Seq<char>,
    t2: Seq<char>,
)
    requires
        t1 == signed_token_of(secret, id1, exp1),
        t2 == signed_token_of(secret, id2, exp2),
        token_claims_of(secret, t1) == Some((id1, exp1)),
        token_claims_of(secret, t2) == Some((id2, exp2)),
        (id1, exp1) != (id2, exp2),
    ensures
        t1 != t2,
{
    if t1 == t2 {
        assert(token_claims_of(secret, t1) == token_claims_of(secret, t2));
    }
}

} // verus!
