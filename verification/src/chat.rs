//! Chat messages and the service that turns what a user sends into one.

use vstd::prelude::*;

verus! {

/// Who wrote a message.
#[derive(Debug, Clone, Copy, PartialEq, Eq, Structural)]
pub enum MessageRole {
    User,
    Assistant,
}

/// A message in a room. Ids are the 128-bit values of UUIDs.
#[derive(Debug, Clone, PartialEq, Eq)]
pub struct ChatMessage {
    pub id: u128,
    pub room_id: u128,
    pub role: MessageRole,
    pub content: String,
}

/// The bits of a UUID that hold its version and its variant.
pub open spec fn uuid_version_variant_mask() -> u128 {
    0x0000_0000_0000_F000_C000_0000_0000_0000u128
}

/// Those bits in a random (version 4, RFC variant) UUID.
pub open spec fn uuid_v4_version_variant() -> u128 {
    0x0000_0000_0000_4000_8000_0000_0000_0000u128
}

/// Whether `id` has the version and variant of a random UUID.
pub open spec fn is_random_uuid(id: u128) -> bool {
    id & uuid_version_variant_mask() == uuid_v4_version_variant()
}

/// Draws a fresh random id with `uuid::Uuid::new_v4`, as its 128-bit value.
/// The crate's source builds it from random bits with the version nibble set
/// to 4 and the variant bits to `10`; that is all that is claimed of it.
#[verifier::external_body]
fn fresh_message_id() -> (id: u128)
    ensures
        is_random_uuid(id),
{
    uuid::Uuid::new_v4().as_u128()
}

/// The chat use cases; it holds no state.
#[derive(Debug, Clone, Copy, PartialEq, Eq, Structural)]
pub struct ChatService;

impl Default for ChatService {
    fn default() -> (r: ChatService)
        ensures
            r == ChatService,
    {
        ChatService
    }
}

impl ChatService {
    pub fn new() -> (r: ChatService)
        ensures
            r == ChatService,
    {
        ChatService
    }

    /// The message of a user in a room, under the given id.
    pub fn user_message(&self, id: u128, room_id: u128, content: String) -> (r: ChatMessage)
        ensures
            r == (ChatMessage { id, room_id, role: MessageRole::User, content }),
    {
        ChatMessage { id, room_id, role: MessageRole::User, content }
    }

    /// Turns what a user sent to a room into a message of that user, under a
    /// fresh random id.
    pub fn send_message(&self, room_id: u128, content: String) -> (r: ChatMessage)
        ensures
            r.room_id == room_id,
            r.role == MessageRole::User,
            r.content == content,
            is_random_uuid(r.id),
    {
        let id = fresh_message_id();
        self.user_message(id, room_id, content)
    }
}

} // verus!
