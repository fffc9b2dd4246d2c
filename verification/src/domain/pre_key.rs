use vstd::prelude::*;

use super::value_objects::{KeyId, Signature, Timestamp, UserId, X25519PublicKey};

verus! {

#[derive(Debug, Clone, Copy, PartialEq, Eq, Structural)]
pub enum PreKeyType {
    Signed,
    OneTime,
}

/// A pre-key as plain values.
pub struct PreKeyView {
    pub id: u32,
    pub user_id: UserId,
    pub public_key: Seq<u8>,
    pub signature: Seq<u8>,
    pub created_at: i64,
}

/// A medium-term pre-key, signed with the user's identity key.
#[derive(Debug, Clone)]
pub struct SignedPreKey {
    id: KeyId,
    user_id: UserId,
    public_key: X25519PublicKey,
    signature: Signature,
    created_at: Timestamp,
}

impl View for SignedPreKey {
    type V = PreKeyView;

    closed spec fn view(&self) -> PreKeyView {
        PreKeyView {
            id: self.id.0,
            user_id: self.user_id,
            public_key: self.public_key@,
            signature: self.signature@,
            created_at: self.created_at.0,
        }
    }
}

impl SignedPreKey {
    /// A signed pre-key created now.
    pub fn new(id: KeyId, user_id: UserId, public_key: X25519PublicKey, signature: Signature) -> (r: Self)
        ensures
            r@.id == id.0,
            r@.user_id == user_id,
            r@.public_key == public_key@,
            r@.signature == signature@,
    {
        SignedPreKey { id, user_id, public_key, signature, created_at: Timestamp::now() }
    }

    pub fn id(&self) -> (r: KeyId)
        ensures
            r.0 == self@.id,
    {
        self.id
    }

    pub fn user_id(&self) -> (r: &UserId)
        ensures
            *r == self@.user_id,
    {
        &self.user_id
    }

    pub fn public_key(&self) -> (r: &X25519PublicKey)
        ensures
            r@ == self@.public_key,
    {
        &self.public_key
    }

    pub fn signature(&self) -> (r: &Signature)
        ensures
            r@ == self@.signature,
    {
        &self.signature
    }

    pub fn created_at(&self) -> (r: &Timestamp)
        ensures
            r.0 == self@.created_at,
    {
        &self.created_at
    }

    pub fn from_db(
        id: KeyId,
        user_id: UserId,
        public_key: X25519PublicKey,
        signature: Signature,
        created_at: Timestamp,
    ) -> (r: Self)
        ensures
            r@ == (PreKeyView {
                id: id.0,
                user_id,
                public_key: public_key@,
                signature: signature@,
                created_at: created_at.0,
            }),
    {
        SignedPreKey { id, user_id, public_key, signature, created_at }
    }
}

/// A one-time pre-key, consumed by the first session that uses it.
#[derive(Debug, Clone)]
pub struct OneTimePreKey {
    id: KeyId,
    user_id: UserId,
    public_key: X25519PublicKey,
    created_at: Timestamp,
}

impl View for OneTimePreKey {
    type V = PreKeyView;

    closed spec fn view(&self) -> PreKeyView {
        PreKeyView {
            id: self.id.0,
            user_id: self.user_id,
            public_key: self.public_key@,
            signature: Seq::empty(),
            created_at: self.created_at.0,
        }
    }
}

impl OneTimePreKey {
    /// A one-time pre-key created now.
    pub fn new(id: KeyId, user_id: UserId, public_key: X25519PublicKey) -> (r: Self)
        ensures
            r@.id == id.0,
            r@.user_id == user_id,
            r@.public_key == public_key@,
    {
        OneTimePreKey { id, user_id, public_key, created_at: Timestamp::now() }
    }

    pub fn id(&self) -> (r: KeyId)
        ensures
            r.0 == self@.id,
    {
        self.id
    }

    pub fn user_id(&self) -> (r: &UserId)
        ensures
            *r == self@.user_id,
    {
        &self.user_id
    }

    pub fn public_key(&self) -> (r: &X25519PublicKey)
        ensures
            r@ == self@.public_key,
    {
        &self.public_key
    }

    pub fn created_at(&self) -> (r: &Timestamp)
        ensures
            r.0 == self@.created_at,
    {
        &self.created_at
    }

    pub fn from_db(id: KeyId, user_id: UserId, public_key: X25519PublicKey, created_at: Timestamp) -> (r: Self)
        ensures
            r@ == (PreKeyView {
                id: id.0,
                user_id,
                public_key: public_key@,
                signature: Seq::empty(),
                created_at: created_at.0,
            }),
    {
        OneTimePreKey { id, user_id, public_key, created_at }
    }
}

/// What a client fetches to start a session with a user.
#[derive(Debug, Clone)]
pub struct PreKeyBundle {
    pub identity_key: Vec<u8>,
    pub signed_pre_key: SignedPreKey,
    pub one_time_pre_keys: Vec<OneTimePreKey>,
}

} // verus!
