//! Bearer tokens: who sent a request, and whether the token that says so is
//! to be believed.

use vstd::prelude::*;
use vstd::string::StrSliceExecFns;
use vstd::string::StringSliceAdditionalSpecFns;
use hmac::Hmac;
use hmac::Mac;
use jwt::VerifyWithKey;
use serde::de::IgnoredAny;
use sha2::Sha256;

verus! {

/// The identity that a token carries: the one claim taken from it.
#[derive(Debug, PartialEq, Eq)]
pub struct User {
    pub username: String,
}

/// The identity of a request whose bearer token was accepted.
#[derive(Debug, PartialEq, Eq)]
pub struct JwtAuthorization(pub User);

/// The secret that tokens are signed with. It is made once and never changed.
pub struct ServerKey {
    secret: Vec<u8>,
}

impl View for ServerKey {
    type V = Seq<u8>;

    /// The bytes of the secret.
    closed spec fn view(&self) -> Seq<u8> {
        self.secret@
    }
}

impl User {
    /// A copy of the identity.
    pub fn duplicate(&self) -> (copy: User)
        ensures
            copy == *self,
    {
        User { username: self.username.clone() }
    }
}

/// The key for the secret `jwt_secret`: its bytes, whatever their number.
pub fn get_server_key(jwt_secret: &str) -> (key: ServerKey)
    ensures
        key@ == jwt_secret.spec_bytes(),
{
    ServerKey { secret: jwt_secret.as_bytes_vec() }
}

/// The byte that separates the three parts of a token.
pub const SEPARATOR: u8 = 0x2E;

/// The position of the first separator in `bytes` at or after `from`, or the
/// length of `bytes` if there is none.
pub open spec fn next_separator(bytes: Seq<u8>, from: int) -> int
    decreases bytes.len() - from,
{
    if from >= bytes.len() {
        bytes.len() as int
    } else if bytes[from] == SEPARATOR {
        from
    } else {
        next_separator(bytes, from + 1)
    }
}

/// The part of a token that holds its claims: what stands between the two
/// separators of a token that has exactly two. A token with fewer or more
/// separators has no such part.
pub open spec fn claims_part(token: Seq<u8>) -> Option<Seq<u8>> {
    let first = next_separator(token, 0);
    let second = next_separator(token, first + 1);
    let third = next_separator(token, second + 1);
    if second < token.len() && third >= token.len() {
        Some(token.subrange(first + 1, second))
    } else {
        None
    }
}

/// What a token yields: the part that holds its claims, if the token was
/// accepted and has such a part, and nothing otherwise.
pub open spec fn accepted_claims(accepted: bool, token: Seq<u8>) -> Option<Seq<u8>> {
    if accepted {
        claims_part(token)
    } else {
        None
    }
}

/// Whether `jwt`'s `verify_with_key` accepts `token` under the HMAC-SHA256 key
/// made of `secret`, whatever its claims say.
pub uninterp spec fn hs256_accepts(secret: Seq<u8>, token: Seq<char>) -> bool;

/// `jwt::VerifyWithKey::verify_with_key` on a token, with the key that
/// `hmac::Mac::new_from_slice` makes of `secret` and with claims that are read
/// and ignored. The result says whether the call returned `Ok`. As `jwt` has
/// it, that is when the token has three parts, the first two are JSON in
/// base64, the header names HS256, and the third part is, in base64, the
/// HMAC-SHA256 under the key of the first two as they stand in the token.
/// Nothing of this is proved here: the contract believes that the answer
/// depends on the secret and the token alone, and gives it a name.
#[verifier::external_body]
fn token_accepted(secret: &[u8], token: &str) -> (accepted: bool)
    ensures
        accepted == hs256_accepts(secret@, token@),
{
    match Hmac::<Sha256>::new_from_slice(secret) {
        Ok(key) => {
            let claims: Result<IgnoredAny, jwt::Error> = token.verify_with_key(&key);
            claims.is_ok()
        },
        Err(_) => false,
    }
}

/// Computes [`next_separator`].
pub fn find_separator(bytes: &[u8], from: usize) -> (at: usize)
    ensures
        at == next_separator(bytes@, from as int),
        from <= bytes.len() ==> from <= at <= bytes.len(),
        from > bytes.len() ==> at == bytes.len(),
{
    let mut at: usize = from;
    while at < bytes.len() && bytes[at] != SEPARATOR
        invariant
            from <= at,
            from <= bytes.len() ==> at <= bytes.len(),
            next_separator(bytes@, from as int) == next_separator(bytes@, at as int),
        decreases bytes.len() - at,
    {
        at += 1;
    }
    if at > bytes.len() {
        bytes.len()
    } else {
        at
    }
}

/// Computes [`claims_part`]: a copy of the part of `token` that holds its
/// claims.
pub fn claims_segment(token: &[u8]) -> (claims: Option<Vec<u8>>)
    ensures
        match claims {
            Some(part) => claims_part(token@) == Some(part@),
            None => claims_part(token@) is None,
        },
{
    let len: usize = token.len();
    let first: usize = find_separator(token, 0);
    if first >= len {
        return None;
    }
    let second: usize = find_separator(token, first + 1);
    if second >= len {
        return None;
    }
    let third: usize = find_separator(token, second + 1);
    if third < len {
        return None;
    }
    let mut part: Vec<u8> = Vec::new();
    let mut i: usize = first + 1;
    while i < second
        invariant
            first + 1 <= i <= second < token.len(),
            part@ == token@.subrange(first + 1, i as int),
        decreases second - i,
    {
        part.push(token[i]);
        assert(token@.subrange(first + 1, i as int).push(token@[i as int]) == token@.subrange(
            first + 1,
            i + 1,
        ));
        i += 1;
    }
    Some(part)
}

/// What the token yields once it is known whether it was accepted: see
/// [`accepted_claims`].
pub fn claims_if_accepted(accepted: bool, token: &str) -> (claims: Option<Vec<u8>>)
    ensures
        match claims {
            Some(part) => accepted_claims(accepted, token.spec_bytes()) == Some(part@),
            None => accepted_claims(accepted, token.spec_bytes()) is None,
        },
{
    if accepted {
        claims_segment(token.as_bytes())
    } else {
        None
    }
}

/// Checks a bearer token against the server's key. A token that the key does
/// not vouch for yields nothing, whatever it claims; one that it vouches for
/// yields the part that holds its claims, still encoded, for the caller to
/// read the identity from.
pub fn verify_token(server_key: &ServerKey, token: &str) -> (claims: Option<Vec<u8>>)
    ensures
        match claims {
            Some(part) => accepted_claims(hs256_accepts(server_key@, token@), token.spec_bytes())
                == Some(part@),
            None => accepted_claims(hs256_accepts(server_key@, token@), token.spec_bytes())
                is None,
        },
        !hs256_accepts(server_key@, token@) ==> claims is None,
        claims_part(token.spec_bytes()) is None ==> claims is None,
{
    let accepted = token_accepted(server_key.secret.as_slice(), token);
    claims_if_accepted(accepted, token)
}

} // verus!
