use vstd::prelude::*;

use super::value_objects::{ConversationId, Timestamp, UserId};

verus! {

/// A conversation as plain values.
pub struct ConversationView {
    pub id: ConversationId,
    pub participant_a: UserId,
    pub participant_b: UserId,
    pub created_at: i64,
    pub last_message_at: Option<i64>,
    pub is_active: bool,
}

/// A one-to-one conversation. Its participants are stored in UUID order.
#[derive(Debug, Clone)]
pub struct Conversation {
    id: ConversationId,
    participant_a: UserId,
    participant_b: UserId,
    created_at: Timestamp,
    last_message_at: Option<Timestamp>,
    is_active: bool,
}

impl View for Conversation {
    type V = ConversationView;

    closed spec fn view(&self) -> ConversationView {
        ConversationView {
            id: self.id,
            participant_a: self.participant_a,
            participant_b: self.participant_b,
            created_at: self.created_at.0,
            last_message_at: match self.last_message_at {
                Some(t) => Some(t.0),
                None => None,
            },
            is_active: self.is_active,
        }
    }
}

/// The two participants, the one with the smaller UUID first.
pub open spec fn ordered_pair(a: UserId, b: UserId) -> (UserId, UserId) {
    if a.0 < b.0 {
        (a, b)
    } else {
        (b, a)
    }
}

fn order_participants(a: UserId, b: UserId) -> (r: (UserId, UserId))
    ensures
        r == ordered_pair(a, b),
{
    if a.0 < b.0 {
        (a, b)
    } else {
        (b, a)
    }
}

impl Conversation {
    /// Opens an active conversation between two users, stored in UUID order.
    pub fn new(participant_a: UserId, participant_b: UserId) -> (r: Self)
        ensures
            (r@.participant_a, r@.participant_b) == ordered_pair(participant_a, participant_b),
            r@.last_message_at is None,
            r@.is_active,
    {
        let (a, b) = order_participants(participant_a, participant_b);
        Conversation {
            id: ConversationId::new(),
            participant_a: a,
            participant_b: b,
            created_at: Timestamp::now(),
            last_message_at: None,
            is_active: true,
        }
    }

    pub fn from_db(
        id: ConversationId,
        participant_a: UserId,
        participant_b: UserId,
        created_at: Timestamp,
        last_message_at: Option<Timestamp>,
        is_active: bool,
    ) -> (r: Self)
        ensures
            r@.id == id,
            r@.participant_a == participant_a,
            r@.participant_b == participant_b,
            r@.created_at == created_at.0,
            last_message_at matches Some(t) ==> r@.last_message_at == Some(t.0),
            last_message_at is None ==> r@.last_message_at is None,
            r@.is_active == is_active,
    {
        Conversation { id, participant_a, participant_b, created_at, last_message_at, is_active }
    }

    pub fn id(&self) -> (r: &ConversationId)
        ensures
            *r == self@.id,
    {
        &self.id
    }

    pub fn participant_a(&self) -> (r: &UserId)
        ensures
            *r == self@.participant_a,
    {
        &self.participant_a
    }

    pub fn participant_b(&self) -> (r: &UserId)
        ensures
            *r == self@.participant_b,
    {
        &self.participant_b
    }

    pub fn participants(&self) -> (r: (&UserId, &UserId))
        ensures
            *r.0 == self@.participant_a,
            *r.1 == self@.participant_b,
    {
        (&self.participant_a, &self.participant_b)
    }

    pub fn includes_user(&self, user_id: &UserId) -> (r: bool)
        ensures
            r == (self@.participant_a == *user_id || self@.participant_b == *user_id),
    {
        self.participant_a == *user_id || self.participant_b == *user_id
    }

    /// The participant facing `user_id`, if `user_id` takes part.
    pub fn other_participant(&self, user_id: &UserId) -> (r: Option<&UserId>)
        ensures
            self@.participant_a == *user_id ==> r == Some(&self@.participant_b),
            self@.participant_a != *user_id && self@.participant_b == *user_id ==> r == Some(
                &self@.participant_a,
            ),
            self@.participant_a != *user_id && self@.participant_b != *user_id ==> r is None,
    {
        if self.participant_a == *user_id {
            Some(&self.participant_b)
        } else if self.participant_b == *user_id {
            Some(&self.participant_a)
        } else {
            None
        }
    }

    pub fn is_active(&self) -> (r: bool)
        ensures
            r == self@.is_active,
    {
        self.is_active
    }

    pub fn created_at(&self) -> (r: &Timestamp)
        ensures
            r.0 == self@.created_at,
    {
        &self.created_at
    }

    pub fn last_message_at(&self) -> (r: Option<&Timestamp>)
        ensures
            r matches Some(t) ==> self@.last_message_at == Some(t.0),
            r is None ==> self@.last_message_at is None,
    {
        self.last_message_at.as_ref()
    }
}

/// The stored order of a conversation does not depend on the order its participants
/// were named in, puts the smaller UUID first, and keeps both participants; each one
/// is the other's other participant.
pub proof fn lemma_participant_order(a: UserId, b: UserId)
    ensures
        ordered_pair(a, b) == ordered_pair(b, a) || a == b,
        ordered_pair(a, b).0.0 <= ordered_pair(a, b).1.0,
        (ordered_pair(a, b).0 == a && ordered_pair(a, b).1 == b) || (ordered_pair(a, b).0 == b
            && ordered_pair(a, b).1 == a),
{
}

} // verus!
