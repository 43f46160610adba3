//! The events that travel over a room's WebSocket. Ids are the 128-bit values
//! of UUIDs; the JSON form (`{"type": ..., "data": ...}`, snake_case tags) is
//! written and read outside the library.

use vstd::prelude::*;
use crate::chat::ChatMessage;

verus! {

/// What a client sends.
#[derive(Debug, Clone, PartialEq, Eq)]
pub enum ClientEvent {
    SendMessage { room_id: u128, content: String },
    Typing { room_id: u128, active: bool },
    Ping,
}

/// What the server sends.
#[derive(Debug, Clone, PartialEq, Eq)]
pub enum ServerEvent {
    MessageCreated(ChatMessage),
    AssistantDelta { message_id: u128, delta: String },
    AssistantCompleted { message_id: u128 },
    PresenceChanged { user_id: u128, online: bool },
    Error { code: String, message: String },
    Pong,
}

} // verus!
