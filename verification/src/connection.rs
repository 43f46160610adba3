//! The decisions of one WebSocket connection to a room: what to do with an
//! event from the client, and whether the connection goes on after something
//! happened on the socket or on the room's channel.

use vstd::prelude::*;
use vstd::string::*;
use crate::chat::{ChatService, MessageRole, is_random_uuid};
use crate::protocol::{ClientEvent, ServerEvent};

verus! {

/// What the connection does with one client event.
#[derive(Debug, Clone, PartialEq, Eq)]
pub enum ClientEventAction {
    /// Send this event back to the client alone.
    Reply(ServerEvent),
    /// Publish this event to everyone in the room.
    Publish { room_id: u128, event: ServerEvent },
    /// Nothing to do.
    Ignore,
}

/// The error code of a message sent to another room than the connection's.
pub open spec fn room_mismatch_code() -> Seq<char> {
    "room_mismatch"@
}

/// The error text of a message sent to another room than the connection's.
pub open spec fn room_mismatch_text() -> Seq<char> {
    "message room does not match connection room"@
}

/// Whether `event` is the error answered to a message for another room.
pub open spec fn is_room_mismatch_error(event: ServerEvent) -> bool {
    event matches ServerEvent::Error { code, message } && code@ == room_mismatch_code() && message@
        == room_mismatch_text()
}

/// What `handle_client_event` does with `event` on a connection to
/// `connection_room`, up to the random id of a new message.
pub open spec fn handles_as(connection_room: u128, event: ClientEvent, action: ClientEventAction) -> bool {
    match event {
        ClientEvent::Ping => action == ClientEventAction::Reply(ServerEvent::Pong),
        ClientEvent::Typing { .. } => action == ClientEventAction::Ignore,
        ClientEvent::SendMessage { room_id, content } => if room_id != connection_room {
            action matches ClientEventAction::Reply(reply) && is_room_mismatch_error(reply)
        } else {
            action matches ClientEventAction::Publish {
                room_id: target,
                event: ServerEvent::MessageCreated(message),
            } && target == room_id && message.room_id == room_id && message.role == MessageRole::User
                && message.content == content && is_random_uuid(message.id)
        },
    }
}

/// Answers a ping, ignores typing, refuses a message for another room, and
/// turns a message for this room into a new user message published to it.
pub fn handle_client_event(service: &ChatService, connection_room: u128, event: ClientEvent) -> (r:
    ClientEventAction)
    ensures
        handles_as(connection_room, event, r),
{
    match event {
        ClientEvent::Ping => ClientEventAction::Reply(ServerEvent::Pong),
        ClientEvent::SendMessage { room_id, content } => {
            if connection_room != room_id {
                ClientEventAction::Reply(
                    ServerEvent::Error {
                        code: String::from_str("room_mismatch"),
                        message: String::from_str("message room does not match connection room"),
                    },
                )
            } else {
                let message = service.send_message(room_id, content);
                ClientEventAction::Publish { room_id, event: ServerEvent::MessageCreated(message) }
            }
        },
        ClientEvent::Typing { .. } => ClientEventAction::Ignore,
    }
}

/// A connection publishes only to its own room, and only new user messages.
pub proof fn lemma_publishes_only_to_own_room(
    connection_room: u128,
    event: ClientEvent,
    action: ClientEventAction,
)
    requires
        handles_as(connection_room, event, action),
    ensures
        action matches ClientEventAction::Publish { room_id, event: published } ==> {
            &&& room_id == connection_room
            &&& published matches ServerEvent::MessageCreated(message)
            &&& message.room_id == connection_room
            &&& message.role == MessageRole::User
        },
{
}

/// Something that happened on a connection.
#[derive(Debug, Clone, Copy, PartialEq, Eq, Structural)]
pub enum ConnectionActivity {
    /// The client closed the socket.
    ClientClosed,
    /// Receiving from the socket failed.
    ReceiveFailed,
    /// A text frame came in; `handled` says whether it was parsed and answered.
    ClientText { handled: bool },
    /// Another kind of frame came in.
    ClientOther,
    /// An event of the room came in; `delivered` says whether it was sent on.
    RoomEvent { delivered: bool },
    /// The connection fell behind the room and missed `skipped` events.
    RoomLagged { skipped: u64 },
    /// The room's channel closed.
    RoomClosed,
}

/// Whether the connection goes on after `activity`: it stops when either side
/// closes or fails, and goes on after anything handled, ignored or missed.
pub open spec fn continues_after(activity: ConnectionActivity) -> bool {
    match activity {
        ConnectionActivity::ClientClosed => false,
        ConnectionActivity::ReceiveFailed => false,
        ConnectionActivity::ClientText { handled } => handled,
        ConnectionActivity::ClientOther => true,
        ConnectionActivity::RoomEvent { delivered } => delivered,
        ConnectionActivity::RoomLagged { .. } => true,
        ConnectionActivity::RoomClosed => false,
    }
}

/// Decides whether the connection goes on after `activity`.
pub fn connection_continues(activity: ConnectionActivity) -> (r: bool)
    ensures
        r == continues_after(activity),
{
    match activity {
        ConnectionActivity::ClientClosed => false,
        ConnectionActivity::ReceiveFailed => false,
        ConnectionActivity::ClientText { handled } => handled,
        ConnectionActivity::ClientOther => true,
        ConnectionActivity::RoomEvent { delivered } => delivered,
        ConnectionActivity::RoomLagged { .. } => true,
        ConnectionActivity::RoomClosed => false,
    }
}

/// A message naming another room than the connection's is answered with the
/// `room_mismatch` error, whichever room it names, and is never published.
pub proof fn lemma_message_for_another_room_is_refused(
    connection_room: u128,
    room_id: u128,
    content: String,
    action: ClientEventAction,
)
    requires
        room_id != connection_room,
        handles_as(connection_room, ClientEvent::SendMessage { room_id, content }, action),
    ensures
        action matches ClientEventAction::Reply(ServerEvent::Error { code, message }) && code@
            == "room_mismatch"@ && message@ == "message room does not match connection room"@,
        !(action is Publish),
{
}

/// A message naming the connection's room is always published; and whatever
/// is published goes to the room the client named, as a message of the
/// client in that room with exactly what the client wrote.
pub proof fn lemma_message_is_published_to_the_named_room(
    connection_room: u128,
    room_id: u128,
    content: String,
    action: ClientEventAction,
)
    requires
        handles_as(connection_room, ClientEvent::SendMessage { room_id, content }, action),
    ensures
        room_id == connection_room ==> action is Publish,
        action matches ClientEventAction::Publish { room_id: target, event: published } ==> {
            &&& target == room_id
            &&& published matches ServerEvent::MessageCreated(message)
            &&& message.room_id == room_id
            &&& message.content == content
            &&& message.role == MessageRole::User
        },
{
}

/// A ping is answered with a pong to the client alone, and typing is ignored.
pub proof fn lemma_ping_and_typing(connection_room: u128, room_id: u128, active: bool, action: ClientEventAction)
    ensures
        handles_as(connection_room, ClientEvent::Ping, action) ==> action == ClientEventAction::Reply(
            ServerEvent::Pong,
        ),
        handles_as(connection_room, ClientEvent::Typing { room_id, active }, action) ==> action
            == ClientEventAction::Ignore,
{
}

/// Falling behind the room never ends a connection, however many events were
/// missed.
pub proof fn lemma_lag_never_ends_the_connection(skipped: u64)
    ensures
        continues_after(ConnectionActivity::RoomLagged { skipped }),
{
}

/// A connection ends when either side closes, when receiving fails, or when
/// a frame could not be handled or an event not delivered; other frames keep
/// it going.
pub proof fn lemma_when_a_connection_ends(handled: bool, delivered: bool)
    ensures
        !continues_after(ConnectionActivity::ClientClosed),
        !continues_after(ConnectionActivity::ReceiveFailed),
        !continues_after(ConnectionActivity::RoomClosed),
        continues_after(ConnectionActivity::ClientOther),
        continues_after(ConnectionActivity::ClientText { handled }) == handled,
        continues_after(ConnectionActivity::RoomEvent { delivered }) == delivered,
{
}

} // verus!
