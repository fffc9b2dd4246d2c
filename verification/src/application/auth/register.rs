use vstd::prelude::*;
use vstd::utf8::encode_utf8;

use argon2::password_hash::rand_core::OsRng;
use argon2::password_hash::{PasswordHasher, SaltString};
use argon2::Argon2;

use super::dto::{token_response, AuthResponse, RegisterCommand};
use super::login::argon2_accepts;
use crate::domain::error::DomainError;
use crate::domain::user::User;
use crate::domain::value_objects::{utf8_len, username_chars_ok, email_ok, Email, PasswordHash, Username};
use crate::ports::TokenPair;

verus! {

/// The shortest password accepted, in bytes.
pub const MIN_PASSWORD_LENGTH: usize = 8;

/// The longest password, in UTF-8 bytes, that Argon2 accepts (`argon2::MAX_PWD_LEN`).
pub const ARGON2_MAX_PASSWORD_BYTES: u64 = 0xFFFF_FFFF;

/// Whether a password is short enough for Argon2 to hash.
pub open spec fn argon2_password_fits(password: Seq<char>) -> bool {
    encode_utf8(password).len() <= ARGON2_MAX_PASSWORD_BYTES
}

/// Hashes a password with Argon2 (the crate's default parameters) under a salt drawn
/// from the operating system's generator: `SaltString::generate` and then
/// `Argon2::hash_password`, in PHC string form; `None` where the crate reports an
/// error. The salt is random, so the hash is not named. The contract states two facts
/// of the crate's source: with the default parameters and a generated salt the only
/// error is a password longer than `argon2::MAX_PWD_LEN` bytes, and the crate's
/// verifier accepts the same password against the hash (it recomputes with the
/// parameters and salt the hash records).
#[verifier::external_body]
fn argon2_hash(password: &str) -> (r: Option<String>)
    ensures
        argon2_password_fits(password@) <==> r is Some,
        r matches Some(h) ==> argon2_accepts(password@, h@),
{
    let salt = SaltString::generate(&mut OsRng);
    match Argon2::default().hash_password(password.as_bytes(), &salt) {
        Ok(h) => Some(h.to_string()),
        Err(_) => None,
    }
}

/// What is stored for a password given the outcome of hashing it: the hash, or the
/// password itself where hashing failed.
pub fn stored_password(password: &str, hashed: Option<String>) -> (r: String)
    ensures
        hashed matches Some(h) ==> r@ == h@,
        hashed is None ==> r@ == password@,
{
    match hashed {
        Some(h) => h,
        None => password.to_owned(),
    }
}

/// The stored form of a password: its Argon2 hash, which the verifier accepts; only a
/// password too long for Argon2 is stored as it is.
pub fn hash_password(password: &str) -> (r: String)
    ensures
        argon2_password_fits(password@) ==> argon2_accepts(password@, r@),
        !argon2_password_fits(password@) ==> r@ == password@,
{
    stored_password(password, argon2_hash(password))
}

/// The first checks of a registration, in order: the username, the email, then
/// the password length.
pub fn validate_registration(cmd: &RegisterCommand) -> (r: Result<(Username, Email), DomainError>)
    ensures
        !(3 <= utf8_len(cmd.username@) <= 30 && username_chars_ok(cmd.username@)) ==> (r matches Err(
            DomainError::InvalidUsername(_),
        )),
        (3 <= utf8_len(cmd.username@) <= 30 && username_chars_ok(cmd.username@)) && !email_ok(cmd.email@)
            ==> (r matches Err(DomainError::InvalidEmail(_))),
        (3 <= utf8_len(cmd.username@) <= 30 && username_chars_ok(cmd.username@)) && email_ok(cmd.email@)
            && utf8_len(cmd.password@) < MIN_PASSWORD_LENGTH ==> (r matches Err(DomainError::WeakPassword)),
        (3 <= utf8_len(cmd.username@) <= 30 && username_chars_ok(cmd.username@)) && email_ok(cmd.email@)
            && utf8_len(cmd.password@) >= MIN_PASSWORD_LENGTH ==> (r matches Ok((u, e)) && u@
            == cmd.username@ && e@ == cmd.email@),
{
    let username = Username::new(cmd.username.as_str())?;
    let email = Email::new(cmd.email.as_str())?;
    if cmd.password.as_str().len() < MIN_PASSWORD_LENGTH {
        return Err(DomainError::WeakPassword);
    }
    Ok((username, email))
}

/// A registration as plain values: its validated username and email, its password
/// and its identity key.
pub struct RegistrationView {
    pub username: Seq<char>,
    pub email: Seq<char>,
    pub password: Seq<char>,
    pub identity_public_key: Seq<u8>,
}

/// A registration whose username, email and password passed the checks. The username
/// must be found free next.
pub struct RegistrationRequest {
    username: Username,
    email: Email,
    password: String,
    identity_public_key: Vec<u8>,
}

impl View for RegistrationRequest {
    type V = RegistrationView;

    closed spec fn view(&self) -> RegistrationView {
        RegistrationView {
            username: self.username@,
            email: self.email@,
            password: self.password@,
            identity_public_key: self.identity_public_key@,
        }
    }
}

/// A registration whose username was found free. The email must be found free next.
pub struct UsernameFree(RegistrationRequest);

impl View for UsernameFree {
    type V = RegistrationView;

    closed spec fn view(&self) -> RegistrationView {
        self.0@
    }
}

impl RegistrationRequest {
    /// Starts a registration with the checks of `validate_registration`.
    pub fn begin(cmd: RegisterCommand) -> (r: Result<RegistrationRequest, DomainError>)
        ensures
            !(3 <= utf8_len(cmd.username@) <= 30 && username_chars_ok(cmd.username@)) ==> (r matches Err(
                DomainError::InvalidUsername(_),
            )),
            (3 <= utf8_len(cmd.username@) <= 30 && username_chars_ok(cmd.username@)) && !email_ok(cmd.email@)
                ==> (r matches Err(DomainError::InvalidEmail(_))),
            (3 <= utf8_len(cmd.username@) <= 30 && username_chars_ok(cmd.username@)) && email_ok(cmd.email@)
                && utf8_len(cmd.password@) < MIN_PASSWORD_LENGTH ==> (r matches Err(DomainError::WeakPassword)),
            (3 <= utf8_len(cmd.username@) <= 30 && username_chars_ok(cmd.username@)) && email_ok(cmd.email@)
                && utf8_len(cmd.password@) >= MIN_PASSWORD_LENGTH ==> (r matches Ok(q) && q@ == (RegistrationView {
                username: cmd.username@,
                email: cmd.email@,
                password: cmd.password@,
                identity_public_key: cmd.identity_public_key@,
            })),
    {
        let (username, email) = validate_registration(&cmd)?;
        Ok(RegistrationRequest { username, email, password: cmd.password, identity_public_key: cmd.identity_public_key })
    }

    /// The username to look up.
    pub fn username(&self) -> (r: &Username)
        ensures
            r@ == self@.username,
    {
        &self.username
    }

    /// The outcome of the username lookup: a taken username ends the registration.
    pub fn username_checked(self, taken: bool) -> (r: Result<UsernameFree, DomainError>)
        ensures
            taken ==> (r matches Err(DomainError::DuplicateUsername)),
            !taken ==> (r matches Ok(f) && f@ == self@),
    {
        if taken {
            return Err(DomainError::DuplicateUsername);
        }
        Ok(UsernameFree(self))
    }
}

impl UsernameFree {
    /// The email to look up.
    pub fn email(&self) -> (r: &Email)
        ensures
            r@ == self@.email,
    {
        &self.0.email
    }

    /// The outcome of the email lookup: a taken email ends the registration; otherwise
    /// the user is created, with the password hashed (see `hash_password`) and the
    /// identity key checked by `User::new`.
    pub fn email_checked(self, taken: bool) -> (r: Result<User, DomainError>)
        ensures
            taken ==> (r matches Err(DomainError::DuplicateEmail)),
            !taken && self@.identity_public_key.len() != 32 ==> (r matches Err(DomainError::Internal(m))
                && m@ == "identity public key must be 32 bytes"@),
            !taken && self@.identity_public_key.len() == 32 ==> (r matches Ok(u) && {
                &&& u@.username == self@.username
                &&& u@.email == self@.email
                &&& argon2_password_fits(self@.password) ==> argon2_accepts(self@.password, u@.password_hash)
                &&& !argon2_password_fits(self@.password) ==> u@.password_hash == self@.password
                &&& u@.identity_public_key == self@.identity_public_key
                &&& u@.failed_login_attempts == 0
                &&& u@.locked_until is None
            }),
    {
        if taken {
            return Err(DomainError::DuplicateEmail);
        }
        let request = self.0;
        let password_hash = PasswordHash::new(hash_password(request.password.as_str()).as_str());
        User::new(request.username, request.email, password_hash, request.identity_public_key)
    }
}

/// The response to a successful registration or login.
pub fn auth_response(user: &User, tokens: &TokenPair) -> (r: AuthResponse)
    ensures
        r.user_id == user@.id,
        r.username@ == user@.username,
        r.token.access_token@ == tokens.access_token@,
        r.token.refresh_token@ == tokens.refresh_token@,
        r.token.expires_in == super::dto::ACCESS_TOKEN_EXPIRES_IN,
{
    AuthResponse {
        user_id: *user.id(),
        username: user.username().as_str().to_owned(),
        token: token_response(tokens),
    }
}

} // verus!
