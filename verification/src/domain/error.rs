use vstd::prelude::*;

verus! {

/// Every way a domain operation can fail.
#[derive(Debug, Clone, PartialEq)]
pub enum DomainError {
    InvalidCredentials,
    UserNotFound,
    SessionNotFound,
    SessionExpired,
    SessionRevoked,
    InvalidToken,
    InvalidUsername(String),
    InvalidEmail(String),
    WeakPassword,
    DuplicateUsername,
    DuplicateEmail,
    ConversationNotFound,
    NotParticipant,
    MessageTooLarge,
    InvalidSignature,
    GroupNotFound,
    NotMember,
    NotOwner,
    MemberAlreadyExists,
    GroupFull,
    InsufficientPermissions,
    UserOffline,
    AccountLocked,
    Unauthorized,
    NotFound(String),
    Internal(String),
}

/// The human-readable text of an error, as shown to API clients.
pub open spec fn domain_error_text(e: DomainError) -> Seq<char> {
    match e {
        DomainError::InvalidCredentials => "invalid credentials"@,
        DomainError::UserNotFound => "user not found"@,
        DomainError::SessionNotFound => "session not found"@,
        DomainError::SessionExpired => "session expired"@,
        DomainError::SessionRevoked => "session revoked"@,
        DomainError::InvalidToken => "invalid token"@,
        DomainError::InvalidUsername(s) => "invalid username: "@ + s@,
        DomainError::InvalidEmail(s) => "invalid email: "@ + s@,
        DomainError::WeakPassword => "weak password"@,
        DomainError::DuplicateUsername => "username already taken"@,
        DomainError::DuplicateEmail => "email already registered"@,
        DomainError::ConversationNotFound => "conversation not found"@,
        DomainError::NotParticipant => "not a participant in this conversation"@,
        DomainError::MessageTooLarge => "message too large"@,
        DomainError::InvalidSignature => "invalid signature"@,
        DomainError::GroupNotFound => "group not found"@,
        DomainError::NotMember => "not a member of this group"@,
        DomainError::NotOwner => "not the group owner"@,
        DomainError::MemberAlreadyExists => "member already exists in group"@,
        DomainError::GroupFull => "group is full"@,
        DomainError::InsufficientPermissions => "insufficient permissions"@,
        DomainError::UserOffline => "user is offline"@,
        DomainError::AccountLocked => "account is locked"@,
        DomainError::Unauthorized => "unauthorized"@,
        DomainError::NotFound(s) => "not found: "@ + s@,
        DomainError::Internal(s) => "internal error: "@ + s@,
    }
}

fn prefixed(prefix: &str, detail: &String) -> (r: String)
    ensures
        r@ == prefix@ + detail@,
{
    let mut r = prefix.to_owned();
    r.append(detail.as_str());
    r
}

impl DomainError {
    /// The error's message text (what `Display` shows for it).
    pub fn message(&self) -> (r: String)
        ensures
            r@ == domain_error_text(*self),
    {
        match self {
            DomainError::InvalidCredentials => "invalid credentials".to_owned(),
            DomainError::UserNotFound => "user not found".to_owned(),
            DomainError::SessionNotFound => "session not found".to_owned(),
            DomainError::SessionExpired => "session expired".to_owned(),
            DomainError::SessionRevoked => "session revoked".to_owned(),
            DomainError::InvalidToken => "invalid token".to_owned(),
            DomainError::InvalidUsername(s) => prefixed("invalid username: ", s),
            DomainError::InvalidEmail(s) => prefixed("invalid email: ", s),
            DomainError::WeakPassword => "weak password".to_owned(),
            DomainError::DuplicateUsername => "username already taken".to_owned(),
            DomainError::DuplicateEmail => "email already registered".to_owned(),
            DomainError::ConversationNotFound => "conversation not found".to_owned(),
            DomainError::NotParticipant => "not a participant in this conversation".to_owned(),
            DomainError::MessageTooLarge => "message too large".to_owned(),
            DomainError::InvalidSignature => "invalid signature".to_owned(),
            DomainError::GroupNotFound => "group not found".to_owned(),
            DomainError::NotMember => "not a member of this group".to_owned(),
            DomainError::NotOwner => "not the group owner".to_owned(),
            DomainError::MemberAlreadyExists => "member already exists in group".to_owned(),
            DomainError::GroupFull => "group is full".to_owned(),
            DomainError::InsufficientPermissions => "insufficient permissions".to_owned(),
            DomainError::UserOffline => "user is offline".to_owned(),
            DomainError::AccountLocked => "account is locked".to_owned(),
            DomainError::Unauthorized => "unauthorized".to_owned(),
            DomainError::NotFound(s) => prefixed("not found: ", s),
            DomainError::Internal(s) => prefixed("internal error: ", s),
        }
    }
}

} // verus!
