//! How domain values are stored: the text of each enumeration's variants, and the
//! rows a pre-key bundle is read from.
use vstd::prelude::*;

use crate::adapters::api::routes::keys::{array32_of, array64_of};
use crate::domain::error::DomainError;
use crate::domain::group::GroupRole;
use crate::domain::pre_key::{OneTimePreKey, PreKeyBundle, PreKeyView, SignedPreKey};
use crate::domain::session::SessionStatus;
use crate::domain::value_objects::{text_equals, KeyId, Signature, Timestamp, UserId, X25519PublicKey};

verus! {

/// The stored text of a session status.
pub open spec fn session_status_text(s: SessionStatus) -> Seq<char> {
    match s {
        SessionStatus::Active => "active"@,
        SessionStatus::Expired => "expired"@,
        SessionStatus::Revoked => "revoked"@,
        SessionStatus::Reconnecting => "reconnecting"@,
    }
}

/// The session status a stored text reads as; unknown texts read as active.
pub open spec fn session_status_of(text: Seq<char>) -> SessionStatus {
    if text == "active"@ {
        SessionStatus::Active
    } else if text == "expired"@ {
        SessionStatus::Expired
    } else if text == "revoked"@ {
        SessionStatus::Revoked
    } else if text == "reconnecting"@ {
        SessionStatus::Reconnecting
    } else {
        SessionStatus::Active
    }
}

pub fn session_status_as_str(status: SessionStatus) -> (r: &'static str)
    ensures
        r@ == session_status_text(status),
{
    match status {
        SessionStatus::Active => "active",
        SessionStatus::Expired => "expired",
        SessionStatus::Revoked => "revoked",
        SessionStatus::Reconnecting => "reconnecting",
    }
}

pub fn session_status_from_str(text: &str) -> (r: SessionStatus)
    ensures
        r == session_status_of(text@),
{
    if text_equals(text, "active") {
        SessionStatus::Active
    } else if text_equals(text, "expired") {
        SessionStatus::Expired
    } else if text_equals(text, "revoked") {
        SessionStatus::Revoked
    } else if text_equals(text, "reconnecting") {
        SessionStatus::Reconnecting
    } else {
        SessionStatus::Active
    }
}

/// The stored text of a group role.
pub open spec fn group_role_text(r: GroupRole) -> Seq<char> {
    match r {
        GroupRole::Owner => "owner"@,
        GroupRole::Admin => "admin"@,
        GroupRole::Member => "member"@,
    }
}

/// The group role a stored text reads as; unknown texts read as member.
pub open spec fn group_role_of(text: Seq<char>) -> GroupRole {
    if text == "owner"@ {
        GroupRole::Owner
    } else if text == "admin"@ {
        GroupRole::Admin
    } else {
        GroupRole::Member
    }
}

pub fn group_role_as_str(role: GroupRole) -> (r: &'static str)
    ensures
        r@ == group_role_text(role),
{
    match role {
        GroupRole::Owner => "owner",
        GroupRole::Admin => "admin",
        GroupRole::Member => "member",
    }
}

pub fn group_role_from_str(text: &str) -> (r: GroupRole)
    ensures
        r == group_role_of(text@),
{
    if text_equals(text, "owner") {
        GroupRole::Owner
    } else if text_equals(text, "admin") {
        GroupRole::Admin
    } else {
        GroupRole::Member
    }
}

/// A stored session status reads back as the status that was stored.
pub proof fn lemma_session_status_round_trip(s: SessionStatus)
    ensures
        session_status_of(session_status_text(s)) == s,
{
    reveal_strlit("active");
    reveal_strlit("expired");
    reveal_strlit("revoked");
    reveal_strlit("reconnecting");
    assert("active"@.len() == 6 && "active"@[0] == 'a');
    assert("expired"@.len() == 7 && "expired"@[0] == 'e');
    assert("revoked"@.len() == 7 && "revoked"@[0] == 'r');
    assert("reconnecting"@.len() == 12);
}

/// A stored group role reads back as the role that was stored.
pub proof fn lemma_group_role_round_trip(r: GroupRole)
    ensures
        group_role_of(group_role_text(r)) == r,
{
    reveal_strlit("owner");
    reveal_strlit("admin");
    reveal_strlit("member");
    assert("owner"@.len() == 5 && "owner"@[0] == 'o');
    assert("admin"@.len() == 5 && "admin"@[0] == 'a');
    assert("member"@.len() == 6);
}

/// A stored signed pre-key: its identifier, key, signature and creation time in
/// milliseconds.
pub struct SignedPreKeyRow {
    pub id: i32,
    pub public_key: Vec<u8>,
    pub signature: Vec<u8>,
    pub created_at: i64,
}

/// A stored one-time pre-key.
pub struct OneTimePreKeyRow {
    pub id: i32,
    pub public_key: Vec<u8>,
    pub created_at: i64,
}

/// Whether a stored row has the sizes of an X25519 key and an Ed25519 signature.
pub open spec fn signed_row_sized(row: SignedPreKeyRow) -> bool {
    row.public_key@.len() == 32 && row.signature@.len() == 64
}

/// The pre-key a signed row holds, for a user.
pub open spec fn signed_row_view(row: SignedPreKeyRow, user_id: UserId) -> PreKeyView {
    PreKeyView {
        id: row.id as u32,
        user_id,
        public_key: row.public_key@,
        signature: row.signature@,
        created_at: row.created_at,
    }
}

/// The pre-key a one-time row holds, for a user.
pub open spec fn one_time_row_view(row: OneTimePreKeyRow, user_id: UserId) -> PreKeyView {
    PreKeyView {
        id: row.id as u32,
        user_id,
        public_key: row.public_key@,
        signature: Seq::empty(),
        created_at: row.created_at,
    }
}

/// A user's pre-key bundle from its stored rows: the identity key, the newest signed
/// pre-key and the one-time pre-keys in the order read. A user without a signed
/// pre-key has no bundle.
pub fn bundle_from_rows(
    user_id: UserId,
    identity_key: Vec<u8>,
    signed: Option<SignedPreKeyRow>,
    one_time: Vec<OneTimePreKeyRow>,
) -> (r: Result<PreKeyBundle, DomainError>)
    requires
        signed matches Some(row) ==> signed_row_sized(row),
        forall|i: int| 0 <= i < one_time@.len() ==> (#[trigger] one_time@[i]).public_key@.len() == 32,
    ensures
        signed is None ==> (r matches Err(DomainError::Internal(m)) && m@ == "no signed pre-key found"@),
        signed matches Some(row) ==> (r matches Ok(b) && {
            &&& b.identity_key@ == identity_key@
            &&& b.signed_pre_key@ == signed_row_view(row, user_id)
            &&& b.one_time_pre_keys@.len() == one_time@.len()
            &&& forall|i: int| 0 <= i < one_time@.len()
                ==> (#[trigger] b.one_time_pre_keys@[i])@ == one_time_row_view(one_time@[i], user_id)
        }),
{
    let row = match signed {
        Some(row) => row,
        None => return Err(DomainError::Internal("no signed pre-key found".to_owned())),
    };
    let signed_pre_key = SignedPreKey::from_db(
        KeyId::new(row.id as u32),
        user_id,
        X25519PublicKey::new(array32_of(&row.public_key)),
        Signature::new(array64_of(&row.signature)),
        Timestamp::from_millis(row.created_at),
    );
    let mut keys: Vec<OneTimePreKey> = Vec::new();
    let mut i: usize = 0;
    while i < one_time.len()
        invariant
            i <= one_time@.len(),
            keys@.len() == i,
            forall|j: int| 0 <= j < one_time@.len() ==> (#[trigger] one_time@[j]).public_key@.len() == 32,
            forall|j: int| 0 <= j < i ==> (#[trigger] keys@[j])@ == one_time_row_view(one_time@[j], user_id),
        decreases one_time@.len() - i,
    {
        let r = &one_time[i];
        keys.push(
            OneTimePreKey::from_db(
                KeyId::new(r.id as u32),
                user_id,
                X25519PublicKey::new(array32_of(&r.public_key)),
                Timestamp::from_millis(r.created_at),
            ),
        );
        i = i + 1;
    }
    Ok(PreKeyBundle { identity_key, signed_pre_key, one_time_pre_keys: keys })
}

} // verus!
