//! The handles of tokio's broadcast channels that the room table uses, and
//! the records of what was done with them. Every record here is made only by
//! the call it records, so code elsewhere cannot make one up.

use std::collections::HashMap;
use tokio::sync::broadcast::{Receiver, Sender};
use vstd::prelude::*;
use crate::protocol::ServerEvent;

verus! {

#[verifier::external_type_specification]
#[verifier::external_body]
#[verifier::reject_recursive_types(T)]
pub struct ExSender<T>(Sender<T>);

#[verifier::external_type_specification]
#[verifier::external_body]
#[verifier::reject_recursive_types(T)]
pub struct ExReceiver<T>(Receiver<T>);

/// A room's channel as opened: its sender, and (for proofs) the capacity it
/// was opened with.
pub struct RoomChannel {
    sender: Sender<ServerEvent>,
    capacity: Ghost<usize>,
}

impl RoomChannel {
    /// The sender of this channel.
    pub closed spec fn handle(&self) -> Sender<ServerEvent> {
        self.sender
    }

    /// The capacity this channel was opened with.
    pub closed spec fn capacity(&self) -> usize {
        self.capacity@
    }

    /// The sender of this channel.
    pub fn sender(&self) -> (r: &Sender<ServerEvent>)
        ensures
            *r == self.handle(),
    {
        &self.sender
    }

    /// A new handle on this channel. Handles are made only here and by
    /// `open_channel`: verified code cannot copy a handle it holds, so each
    /// handle it is given can be spent on one send only.
    pub fn new_handle(&self) -> (r: Sender<ServerEvent>)
        ensures
            r == self.handle(),
    {
        clone_sender(&self.sender)
    }
}

/// A receiver on a room's channel. Proofs also see the sender of the channel
/// it listens to.
pub struct RoomReceiver {
    receiver: Receiver<ServerEvent>,
    channel: Ghost<Sender<ServerEvent>>,
}

impl RoomReceiver {
    /// The sender of the channel this receiver listens to.
    pub closed spec fn channel(&self) -> Sender<ServerEvent> {
        self.channel@
    }

    /// The receiver itself, to wait on.
    pub fn into_receiver(self) -> Receiver<ServerEvent> {
        self.receiver
    }
}

/// What one send did: the number of receivers the event was queued for
/// (`None` when the channel had none). Proofs also see the sender it was
/// handed to and the event it carried.
pub struct SendRecord {
    queued: Option<usize>,
    channel: Ghost<Sender<ServerEvent>>,
    event: Ghost<ServerEvent>,
}

impl SendRecord {
    /// The sender of the channel the event was handed to.
    pub closed spec fn channel(&self) -> Sender<ServerEvent> {
        self.channel@
    }

    /// The event that was handed over.
    pub closed spec fn event(&self) -> ServerEvent {
        self.event@
    }

    /// How many receivers the event was queued for, as the send reported.
    pub closed spec fn queued_for(&self) -> Option<usize> {
        self.queued
    }

    /// How many receivers the event was queued for, `None` when none.
    pub fn queued(&self) -> (r: Option<usize>)
        ensures
            r == self.queued_for(),
    {
        self.queued
    }
}

/// A receiver count as read from a channel. Proofs also see the sender of
/// the channel it was read from.
pub struct ReceiverCount {
    count: usize,
    channel: Ghost<Sender<ServerEvent>>,
}

impl ReceiverCount {
    /// The sender of the channel the count was read from.
    pub closed spec fn channel(&self) -> Sender<ServerEvent> {
        self.channel@
    }

    /// The count that was read.
    pub closed spec fn value(&self) -> usize {
        self.count
    }

    /// The count that was read.
    pub fn count(&self) -> (r: usize)
        ensures
            r == self.value(),
    {
        self.count
    }
}

/// `tokio::sync::broadcast::channel`: a new channel holding up to `capacity`
/// events, with one receiver on it. The new sender holds a new allocation,
/// and every sender in `existing` keeps its own alive, so it differs from
/// each of them. Its source panics when `capacity` is zero or above
/// `usize::MAX / 2`, which `requires` leaves out.
#[verifier::external_body]
pub(crate) fn open_channel(capacity: usize, existing: &HashMap<u128, RoomChannel>) -> (r: (
    RoomChannel,
    RoomReceiver,
))
    requires
        0 < capacity <= usize::MAX / 2,
    ensures
        r.0.capacity() == capacity,
        r.1.channel() == r.0.handle(),
        forall|k: u128| existing@.contains_key(k) ==> #[trigger] existing@[k].handle() != r.0.handle(),
{
    let _ = existing;
    let (sender, receiver) = tokio::sync::broadcast::channel(capacity);
    let channel = Ghost(sender);
    (RoomChannel { sender, capacity: Ghost(capacity) }, RoomReceiver { receiver, channel })
}

/// `Sender::clone`: another handle on the same channel. Its source copies the
/// one pointer a sender holds, so the clone equals the original.
#[verifier::external_body]
fn clone_sender(sender: &Sender<ServerEvent>) -> (r: Sender<ServerEvent>)
    ensures
        r == *sender,
{
    sender.clone()
}

/// `Sender::subscribe`: a new receiver on the sender's channel (its source
/// gives the receiver the sender's shared pointer). Its source panics once a
/// channel has `usize::MAX >> 2` receivers, a count held in shared state that
/// no `requires` here can see.
#[verifier::external_body]
pub(crate) fn subscribe_receiver(sender: &Sender<ServerEvent>) -> (r: RoomReceiver)
    ensures
        r.channel() == *sender,
{
    RoomReceiver { receiver: sender.subscribe(), channel: Ghost(*sender) }
}

/// `Sender::send`: hands the one event to the sender's channel, giving the
/// number of receivers it was queued for, or `None` when the channel had no
/// receiver; the handle is spent by the send and dropped. That number depends
/// on the receivers alive at the moment; what the source shows is only that a
/// success counts at least one.
#[verifier::external_body]
pub(crate) fn send_event(sender: Sender<ServerEvent>, event: ServerEvent) -> (r: SendRecord)
    ensures
        r.channel() == sender,
        r.event() == event,
        r.queued_for() matches Some(n) ==> n >= 1,
{
    let handed = Ghost(event);
    let channel = Ghost(sender);
    SendRecord { queued: sender.send(event).ok(), channel, event: handed }
}

/// `Sender::same_channel`: whether two handles point at the same channel.
/// Its source compares the one pointer that each handle holds (a sender holds
/// nothing else), so it answers exactly whether the two handles are equal.
#[verifier::external_body]
pub(crate) fn on_same_channel(a: &Sender<ServerEvent>, b: &Sender<ServerEvent>) -> (r: bool)
    ensures
        r == (*a == *b),
{
    a.same_channel(b)
}

/// `Sender::receiver_count`: the number of receivers alive at the moment,
/// read from the sender's channel. The number depends on other tasks, and
/// nothing is claimed of it.
#[verifier::external_body]
pub(crate) fn live_receivers(sender: &Sender<ServerEvent>) -> (r: ReceiverCount)
    ensures
        r.channel() == *sender,
{
    ReceiverCount { count: sender.receiver_count(), channel: Ghost(*sender) }
}

} // verus!
