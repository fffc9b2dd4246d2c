use vstd::prelude::*;

use argon2::password_hash::{PasswordHash as PhcHash, PasswordVerifier};
use argon2::Argon2;

use super::dto::LoginCommand;
use crate::domain::error::DomainError;
use crate::domain::user::User;
use crate::domain::value_objects::{utf8_len, email_ok, username_chars_ok, Email, PasswordHash, Username};

verus! {

/// Whether Argon2 (the crate's default parameters) accepts a password against a hash
/// in PHC string form: the hash parses and the password verifies against it.
pub uninterp spec fn argon2_accepts(password: Seq<char>, phc: Seq<char>) -> bool;

/// Parses the hash with `argon2::password_hash::PasswordHash::new` and checks the
/// password with `Argon2::verify_password`; `false` where either reports an error.
/// The outcome is named by `argon2_accepts`.
#[verifier::external_body]
fn argon2_verify(password: &str, phc: &str) -> (r: bool)
    ensures
        r == argon2_accepts(password@, phc@),
{
    match PhcHash::new(phc) {
        Ok(parsed) => Argon2::default().verify_password(password.as_bytes(), &parsed).is_ok(),
        Err(_) => false,
    }
}

/// Whether a password matches a stored hash.
pub fn verify_password(password: &str, hash: &PasswordHash) -> (r: bool)
    ensures
        r == argon2_accepts(password@, hash@),
{
    argon2_verify(password, hash.as_str())
}

/// How a login name is looked up: as a username when it is a valid one, and as an
/// email when it is a valid one (tried in that order).
pub fn login_candidates(login: &str) -> (r: (Option<Username>, Option<Email>))
    ensures
        (3 <= utf8_len(login@) <= 30 && username_chars_ok(login@)) ==> (r.0 matches Some(u) && u@ == login@),
        !(3 <= utf8_len(login@) <= 30 && username_chars_ok(login@)) ==> r.0 is None,
        email_ok(login@) ==> (r.1 matches Some(e) && e@ == login@),
        !email_ok(login@) ==> r.1 is None,
{
    let username = match Username::new(login) {
        Ok(u) => Some(u),
        Err(_) => None,
    };
    let email = match Email::new(login) {
        Ok(e) => Some(e),
        Err(_) => None,
    };
    (username, email)
}

/// Checks a login's password against the user found for it.
pub fn check_credentials(password: &str, user: &User) -> (r: Result<(), DomainError>)
    ensures
        argon2_accepts(password@, user@.password_hash) ==> r is Ok,
        !argon2_accepts(password@, user@.password_hash) ==> (r matches Err(DomainError::InvalidCredentials)),
{
    if !verify_password(password, user.password_hash()) {
        return Err(DomainError::InvalidCredentials);
    }
    Ok(())
}

/// A login as plain values: the names still to look the user up by, and the password.
pub struct LoginView {
    pub username: Option<Seq<char>>,
    pub email: Option<Seq<char>>,
    pub password: Seq<char>,
}

/// A login in progress: the names its user may still be found by, username first.
pub struct LoginRequest {
    username: Option<Username>,
    email: Option<Email>,
    password: String,
}

impl View for LoginRequest {
    type V = LoginView;

    closed spec fn view(&self) -> LoginView {
        LoginView {
            username: match self.username {
                Some(u) => Some(u@),
                None => None,
            },
            email: match self.email {
                Some(e) => Some(e@),
                None => None,
            },
            password: self.password@,
        }
    }
}

/// The lookup a login makes next.
pub enum UserLookup<'a> {
    ByUsername(&'a Username),
    ByEmail(&'a Email),
}

impl LoginRequest {
    /// Starts a login: the login name is tried as a username and as an email, where
    /// it is a valid one (see `login_candidates`).
    pub fn begin(cmd: LoginCommand) -> (r: LoginRequest)
        ensures
            (3 <= utf8_len(cmd.login@) <= 30 && username_chars_ok(cmd.login@)) ==> r@.username == Some(cmd.login@),
            !(3 <= utf8_len(cmd.login@) <= 30 && username_chars_ok(cmd.login@)) ==> r@.username is None,
            email_ok(cmd.login@) ==> r@.email == Some(cmd.login@),
            !email_ok(cmd.login@) ==> r@.email is None,
            r@.password == cmd.password@,
    {
        let (username, email) = login_candidates(cmd.login.as_str());
        LoginRequest { username, email, password: cmd.password }
    }

    /// The next lookup: by username while one is left, then by email; with neither
    /// left, the credentials are refused.
    pub fn next_lookup(&self) -> (r: Result<UserLookup<'_>, DomainError>)
        ensures
            self@.username matches Some(u) ==> (r matches Ok(UserLookup::ByUsername(n)) && n@ == u),
            self@.username is None ==> (self@.email matches Some(e) ==> (r matches Ok(UserLookup::ByEmail(m))
                && m@ == e)),
            self@.username is None && self@.email is None ==> (r matches Err(DomainError::InvalidCredentials)),
    {
        match &self.username {
            Some(u) => Ok(UserLookup::ByUsername(u)),
            None => match &self.email {
                Some(e) => Ok(UserLookup::ByEmail(e)),
                None => Err(DomainError::InvalidCredentials),
            },
        }
    }

    /// The lookup just made found no user: that name is dropped.
    pub fn lookup_missed(self) -> (r: LoginRequest)
        ensures
            self@.username is Some ==> r@ == (LoginView { username: None, ..self@ }),
            self@.username is None ==> r@ == (LoginView { email: None, ..self@ }),
    {
        match self.username {
            Some(_) => LoginRequest { username: None, email: self.email, password: self.password },
            None => LoginRequest { username: None, email: None, password: self.password },
        }
    }

    /// The lookup found a user: the login succeeds if the password matches its hash.
    pub fn user_found(self, user: User) -> (r: Result<User, DomainError>)
        ensures
            argon2_accepts(self@.password, user@.password_hash) ==> (r matches Ok(u) && u@ == user@),
            !argon2_accepts(self@.password, user@.password_hash) ==> (r matches Err(
                DomainError::InvalidCredentials,
            )),
    {
        check_credentials(self.password.as_str(), &user)?;
        Ok(user)
    }
}

} // verus!
