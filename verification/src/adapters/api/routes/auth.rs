//! The authentication endpoints' request bodies.
use vstd::prelude::*;

use crate::adapters::api::error::{ApiError, ErrorCode, STATUS_BAD_REQUEST};
use crate::application::auth::dto::RegisterCommand;

use super::keys::is_api_error;

verus! {

#[derive(Debug)]
pub struct RegisterBody {
    pub username: String,
    pub email: String,
    pub password: String,
    pub identity_public_key: Vec<u8>,
}

#[derive(Debug)]
pub struct LoginBody {
    pub login: String,
    pub password: String,
}

#[derive(Debug)]
pub struct RefreshBody {
    pub refresh_token: String,
}

/// The registration command for a request body; the identity key must be 32 bytes.
pub fn register_command(body: RegisterBody) -> (r: Result<RegisterCommand, (u16, ApiError)>)
    ensures
        body.identity_public_key@.len() != 32 ==> (r matches Err(e) && is_api_error(
            e,
            STATUS_BAD_REQUEST,
            ErrorCode::ValidationError,
            "identity_public_key must be 32 bytes"@,
        )),
        body.identity_public_key@.len() == 32 ==> (r matches Ok(c) && c.username@ == body.username@ && c.email@
            == body.email@ && c.password@ == body.password@ && c.identity_public_key@
            == body.identity_public_key@),
{
    if body.identity_public_key.len() != 32 {
        return Err(
            ApiError::new(STATUS_BAD_REQUEST, ErrorCode::ValidationError, "identity_public_key must be 32 bytes"),
        );
    }
    Ok(
        RegisterCommand {
            username: body.username,
            email: body.email,
            password: body.password,
            identity_public_key: body.identity_public_key,
        },
    )
}

} // verus!
