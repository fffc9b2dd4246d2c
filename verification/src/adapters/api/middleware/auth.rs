//! What the authentication middleware decides: which token an `Authorization`
//! header carries, and what a request that passed it knows of its caller.
use vstd::prelude::*;

use crate::domain::value_objects::text_equals;
use crate::ports::JwtClaims;

verus! {

/// The scheme word that starts a bearer `Authorization` header, with its space.
pub open spec fn bearer_prefix() -> Seq<char> {
    seq!['B', 'e', 'a', 'r', 'e', 'r', ' ']
}

/// The token a header value carries: what follows `"Bearer "`, where the value
/// starts with it.
pub open spec fn bearer_token_of(header: Seq<char>) -> Option<Seq<char>> {
    if header.len() >= 7 && header.subrange(0, 7) == bearer_prefix() {
        Some(header.skip(7))
    } else {
        None
    }
}

/// The token of a request's `Authorization` header: an error where the header is
/// missing or does not use the bearer scheme.
pub fn extract_bearer_token(authorization: Option<&str>) -> (r: Result<String, ()>)
    ensures
        match authorization {
            None => r is Err,
            Some(h) => match bearer_token_of(h@) {
                Some(t) => r matches Ok(s) && s@ == t,
                None => r is Err,
            },
        },
{
    let header = match authorization {
        Some(h) => h,
        None => return Err(()),
    };
    let n = header.unicode_len();
    if n < 7 {
        return Err(());
    }
    let prefix = header.substring_char(0, 7);
    proof {
        reveal_strlit("Bearer ");
        assert("Bearer "@ =~= bearer_prefix());
    }
    if !text_equals(prefix, "Bearer ") {
        return Err(());
    }
    let token = header.substring_char(7, n);
    proof {
        assert(token@ =~= header@.skip(7));
    }
    Ok(token.to_owned())
}

/// The caller of an authenticated request: the claims of its access token and the
/// token itself.
#[derive(Debug, Clone)]
pub struct AuthContext {
    pub claims: JwtClaims,
    pub raw_token: String,
}

impl AuthContext {
    pub fn from_claims(claims: JwtClaims, raw_token: String) -> (r: Self)
        ensures
            r.claims == claims,
            r.raw_token@ == raw_token@,
    {
        AuthContext { claims, raw_token }
    }
}

} // verus!
