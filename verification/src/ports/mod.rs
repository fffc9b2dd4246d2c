//! What the application layer exchanges with its ports: token pairs, validated
//! claims, presence and signaling messages. The ports themselves are asynchronous
//! services and live with the server around this library.
use vstd::prelude::*;

use crate::domain::value_objects::{JwtToken, UserId};

verus! {

/// An access token and a refresh token issued together.
pub struct TokenPair {
    pub access_token: JwtToken,
    pub refresh_token: JwtToken,
}

/// The claims of a validated token.
#[derive(Debug, Clone, Copy)]
pub struct JwtClaims {
    pub user_id: UserId,
    pub session_jti: u128,
    pub exp: usize,
}

/// A user that is online.
pub struct OnlineUser {
    pub user_id: UserId,
    pub username: String,
}

/// A WebRTC signaling message relayed between peers.
pub enum SignalingMessage {
    Offer { sender_id: UserId, sdp: String, conversation_type: String },
    Answer { sender_id: UserId, sdp: String },
    IceCandidate { sender_id: UserId, candidate: String, sdp_mid: String, sdp_mline_index: u16 },
    Accept { sender_id: UserId },
    Reject { sender_id: UserId, reason: String },
}

} // verus!
