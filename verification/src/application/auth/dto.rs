use vstd::prelude::*;

use crate::domain::value_objects::UserId;
use crate::ports::TokenPair;

verus! {

#[derive(Debug)]
pub struct RegisterCommand {
    pub username: String,
    pub email: String,
    pub password: String,
    pub identity_public_key: Vec<u8>,
}

#[derive(Debug)]
pub struct LoginCommand {
    pub login: String,
    pub password: String,
}

#[derive(Debug)]
pub struct RefreshTokenCommand {
    pub refresh_token: String,
}

#[derive(Debug)]
pub struct AuthResponse {
    pub user_id: UserId,
    pub username: String,
    pub token: TokenResponse,
}

#[derive(Debug)]
pub struct TokenResponse {
    pub access_token: String,
    pub refresh_token: String,
    pub expires_in: i64,
}

/// The access token lifetime announced to clients, in seconds.
pub const ACCESS_TOKEN_EXPIRES_IN: i64 = 900;

/// The token part of an authentication response.
pub fn token_response(tokens: &TokenPair) -> (r: TokenResponse)
    ensures
        r.access_token@ == tokens.access_token@,
        r.refresh_token@ == tokens.refresh_token@,
        r.expires_in == ACCESS_TOKEN_EXPIRES_IN,
{
    TokenResponse {
        access_token: tokens.access_token.as_str().to_owned(),
        refresh_token: tokens.refresh_token.as_str().to_owned(),
        expires_in: ACCESS_TOKEN_EXPIRES_IN,
    }
}

} // verus!
