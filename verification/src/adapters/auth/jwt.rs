//! What the JWT adapter decides: the claims a token carries, and what a decoded
//! token's claims mean. Signing and checking signatures is done by `jsonwebtoken`
//! around this library, on the serialized claims.
use vstd::prelude::*;

use crate::domain::error::DomainError;
use crate::domain::value_objects::{parse_uuid, uuid_parse, uuid_text, uuid_to_text, UserId};
use crate::ports::JwtClaims;

verus! {

#[derive(Debug, Clone)]
pub struct JwtAuthAdapter {
    secret: String,
    access_exp: i64,
    refresh_exp: i64,
    issuer: String,
}

/// The claims of an issued token.
#[derive(Debug)]
pub struct Claims {
    pub sub: String,
    pub jti: String,
    pub exp: usize,
    pub iat: usize,
    pub iss: String,
    pub username: Option<String>,
    pub token_type: Option<String>,
}

/// The kind of an issued token.
#[derive(Debug, Clone, Copy, PartialEq, Eq, Structural)]
pub enum TokenKind {
    Access,
    Refresh,
}

/// The `type` claim of a token kind.
pub open spec fn token_kind_text(kind: TokenKind) -> Seq<char> {
    match kind {
        TokenKind::Access => "access"@,
        TokenKind::Refresh => "refresh"@,
    }
}

impl JwtAuthAdapter {
    pub fn new(secret: String, access_exp: i64, refresh_exp: i64, issuer: String) -> (r: Self)
        ensures
            r.secret() == secret@,
            r.access_exp() == access_exp,
            r.refresh_exp() == refresh_exp,
            r.issuer() == issuer@,
    {
        JwtAuthAdapter { secret, access_exp, refresh_exp, issuer }
    }

    pub closed spec fn secret(&self) -> Seq<char> {
        self.secret@
    }

    pub closed spec fn access_exp(&self) -> i64 {
        self.access_exp
    }

    pub closed spec fn refresh_exp(&self) -> i64 {
        self.refresh_exp
    }

    pub closed spec fn issuer(&self) -> Seq<char> {
        self.issuer@
    }

    /// The signing secret.
    pub fn secret_str(&self) -> (r: &str)
        ensures
            r@ == self.secret(),
    {
        self.secret.as_str()
    }

    /// The issuer every token names and every accepted token must name.
    pub fn issuer_str(&self) -> (r: &str)
        ensures
            r@ == self.issuer(),
    {
        self.issuer.as_str()
    }

    /// The lifetime, in seconds, of a token kind.
    pub fn expiry_secs(&self, kind: TokenKind) -> (r: i64)
        ensures
            kind == TokenKind::Access ==> r == self.access_exp(),
            kind == TokenKind::Refresh ==> r == self.refresh_exp(),
    {
        match kind {
            TokenKind::Access => self.access_exp,
            TokenKind::Refresh => self.refresh_exp,
        }
    }

    /// The claims of a token of `kind` for a user's session, issued at `now` (seconds
    /// since the Unix epoch): it expires the kind's lifetime later. Its subject and
    /// identifier read back, through `claims_from_token`, as the user and session it
    /// was issued for.
    pub fn claims_for(&self, user_id: &UserId, session_jti: u128, kind: TokenKind, now: usize) -> (r: Claims)
        requires
            now + (match kind {
                TokenKind::Access => self.access_exp(),
                TokenKind::Refresh => self.refresh_exp(),
            } as usize) <= usize::MAX,
        ensures
            r.sub@ == uuid_text(user_id.0),
            r.jti@ == uuid_text(session_jti),
            uuid_parse(r.sub@) == Some(user_id.0),
            uuid_parse(r.jti@) == Some(session_jti),
            r.iat == now,
            r.exp == now + (match kind {
                TokenKind::Access => self.access_exp(),
                TokenKind::Refresh => self.refresh_exp(),
            } as usize),
            r.iss@ == self.issuer(),
            r.username is None,
            r.token_type matches Some(t) && t@ == token_kind_text(kind),
    {
        let exp_secs = self.expiry_secs(kind);
        let token_type = match kind {
            TokenKind::Access => "access".to_owned(),
            TokenKind::Refresh => "refresh".to_owned(),
        };
        Claims {
            sub: user_id.to_text(),
            jti: uuid_to_text(session_jti),
            exp: now + exp_secs as usize,
            iat: now,
            iss: self.issuer.clone(),
            username: None,
            token_type: Some(token_type),
        }
    }
}

/// What a decoded token's subject and identifier mean: both must be UUIDs.
pub fn claims_from_token(sub: &str, jti: &str, exp: usize) -> (r: Result<JwtClaims, DomainError>)
    ensures
        uuid_parse(sub@) is None ==> (r matches Err(DomainError::InvalidToken)),
        uuid_parse(sub@) is Some && uuid_parse(jti@) is None ==> (r matches Err(DomainError::InvalidToken)),
        uuid_parse(sub@) is Some && uuid_parse(jti@) is Some ==> (r matches Ok(c) && c.user_id
            == UserId(uuid_parse(sub@)->0) && c.session_jti == uuid_parse(jti@)->0 && c.exp == exp),
{
    let user_id = match parse_uuid(sub) {
        Some(u) => UserId::from_uuid(u),
        None => return Err(DomainError::InvalidToken),
    };
    let session_jti = match parse_uuid(jti) {
        Some(j) => j,
        None => return Err(DomainError::InvalidToken),
    };
    Ok(JwtClaims { user_id, session_jti, exp })
}

/// The domain error for a token that failed to decode: an expired signature means
/// an expired session, anything else an invalid token.
pub fn decode_failure(expired_signature: bool) -> (r: DomainError)
    ensures
        expired_signature ==> r == DomainError::SessionExpired,
        !expired_signature ==> r == DomainError::InvalidToken,
{
    if expired_signature {
        DomainError::SessionExpired
    } else {
        DomainError::InvalidToken
    }
}

} // verus!
