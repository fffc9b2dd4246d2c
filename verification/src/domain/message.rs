use vstd::prelude::*;

use super::value_objects::{Ciphertext, ConversationId, Iv, MessageId, Salt, Signature, Timestamp, UserId};

verus! {

#[derive(Debug, Clone, Copy, PartialEq, Eq, Structural)]
pub enum MessageStatus {
    Sent,
    Delivered,
    Read,
    Failed,
}

/// A message as plain values (its encrypted payload left out).
pub struct MessageView {
    pub id: MessageId,
    pub conversation_id: ConversationId,
    pub sender_id: UserId,
    pub sender_sequence_number: u64,
    pub status: MessageStatus,
    pub timestamp: i64,
    pub reply_to: Option<MessageId>,
}

#[derive(Debug, Clone)]
pub struct Message {
    id: MessageId,
    conversation_id: ConversationId,
    sender_id: UserId,
    sender_sequence_number: u64,
    ciphertext: Ciphertext,
    iv: Iv,
    salt: Salt,
    signature: Signature,
    status: MessageStatus,
    timestamp: Timestamp,
    reply_to: Option<MessageId>,
}

impl View for Message {
    type V = MessageView;

    closed spec fn view(&self) -> MessageView {
        MessageView {
            id: self.id,
            conversation_id: self.conversation_id,
            sender_id: self.sender_id,
            sender_sequence_number: self.sender_sequence_number,
            status: self.status,
            timestamp: self.timestamp.0,
            reply_to: self.reply_to,
        }
    }
}

impl Message {
    /// A message as sent, timestamped now.
    pub fn new(
        conversation_id: ConversationId,
        sender_id: UserId,
        sender_sequence_number: u64,
        ciphertext: Ciphertext,
        iv: Iv,
        salt: Salt,
        signature: Signature,
        reply_to: Option<MessageId>,
    ) -> (r: Self)
        ensures
            r@.conversation_id == conversation_id,
            r@.sender_id == sender_id,
            r@.sender_sequence_number == sender_sequence_number,
            r@.status == MessageStatus::Sent,
            r@.reply_to == reply_to,
    {
        Message {
            id: MessageId::new(),
            conversation_id,
            sender_id,
            sender_sequence_number,
            ciphertext,
            iv,
            salt,
            signature,
            status: MessageStatus::Sent,
            timestamp: Timestamp::now(),
            reply_to,
        }
    }

    pub fn id(&self) -> (r: &MessageId)
        ensures
            *r == self@.id,
    {
        &self.id
    }

    pub fn conversation_id(&self) -> (r: &ConversationId)
        ensures
            *r == self@.conversation_id,
    {
        &self.conversation_id
    }

    pub fn sender_id(&self) -> (r: &UserId)
        ensures
            *r == self@.sender_id,
    {
        &self.sender_id
    }

    pub fn sender_sequence_number(&self) -> (r: u64)
        ensures
            r == self@.sender_sequence_number,
    {
        self.sender_sequence_number
    }

    pub fn status(&self) -> (r: MessageStatus)
        ensures
            r == self@.status,
    {
        self.status
    }

    pub fn mark_delivered(&mut self)
        ensures
            final(self)@ == (MessageView { status: MessageStatus::Delivered, ..old(self)@ }),
    {
        self.status = MessageStatus::Delivered;
    }

    pub fn mark_read(&mut self)
        ensures
            final(self)@ == (MessageView { status: MessageStatus::Read, ..old(self)@ }),
    {
        self.status = MessageStatus::Read;
    }

    pub fn timestamp(&self) -> (r: &Timestamp)
        ensures
            r.0 == self@.timestamp,
    {
        &self.timestamp
    }

    pub fn reply_to(&self) -> (r: Option<&MessageId>)
        ensures
            r matches Some(m) ==> self@.reply_to == Some(*m),
            r is None ==> self@.reply_to is None,
    {
        self.reply_to.as_ref()
    }
}

} // verus!
