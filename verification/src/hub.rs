//! The table of rooms: one broadcast channel per room, created on the first
//! subscription and dropped when its last subscriber has left.

use std::collections::HashMap;
use tokio::sync::broadcast::Sender;
use vstd::prelude::*;
use crate::channel::{
    RoomChannel, RoomReceiver, SendRecord, ReceiverCount, live_receivers,
    on_same_channel, open_channel, send_event, subscribe_receiver,
};
use crate::protocol::ServerEvent;

verus! {

/// Hands `event` to the channel of `sender`, if there is one. The handle is
/// spent by that one send and cannot be copied, so the channel gets exactly
/// this one event from here, and the record says so.
pub fn deliver(sender: Option<Sender<ServerEvent>>, event: ServerEvent) -> (r: Option<SendRecord>)
    ensures
        match sender {
            Some(s) => r matches Some(record) && record.channel() == s && record.event() == event,
            None => r is None,
        },
{
    match sender {
        Some(s) => Some(send_event(s, event)),
        None => None,
    }
}

/// The rooms that have a channel, each with its channel as it was opened.
pub struct RoomHub {
    rooms: HashMap<u128, RoomChannel>,
    capacity: usize,
}

impl View for RoomHub {
    type V = Map<u128, Sender<ServerEvent>>;

    /// Each room with the sender of its channel.
    closed spec fn view(&self) -> Map<u128, Sender<ServerEvent>> {
        self.rooms@.map_values(|c: RoomChannel| c.handle())
    }
}

impl RoomHub {
    /// How many events each new room channel holds.
    pub closed spec fn channel_capacity(&self) -> usize {
        self.capacity
    }

    /// The capacity that the channel of `room_id` was opened with.
    pub closed spec fn room_capacity(&self, room_id: u128) -> usize {
        self.rooms@[room_id].capacity()
    }

    /// An empty table whose channels will hold `capacity` events each.
    pub fn new(capacity: usize) -> (r: RoomHub)
        ensures
            r@ == Map::<u128, Sender<ServerEvent>>::empty(),
            r.channel_capacity() == capacity,
    {
        let r = RoomHub { rooms: HashMap::new(), capacity };
        proof {
            assert(r@ =~= Map::<u128, Sender<ServerEvent>>::empty());
        }
        r
    }

    /// Joins a room: opens a new channel for it, with the table's capacity,
    /// when it has none, and hands out the room's sender together with a new
    /// receiver on the room's channel.
    pub fn subscribe(&mut self, room_id: u128) -> (r: (Sender<ServerEvent>, RoomReceiver))
        requires
            !old(self)@.contains_key(room_id) ==> 0 < old(self).channel_capacity() <= usize::MAX / 2,
        ensures
            final(self)@.contains_key(room_id),
            final(self)@ == old(self)@.insert(room_id, final(self)@[room_id]),
            old(self)@.contains_key(room_id) ==> final(self)@ == old(self)@,
            !old(self)@.contains_key(room_id) ==> forall|k: u128|
                old(self)@.contains_key(k) ==> #[trigger] old(self)@[k] != final(self)@[room_id],
            r.0 == final(self)@[room_id],
            r.1.channel() == final(self)@[room_id],
            !old(self)@.contains_key(room_id) ==> final(self).room_capacity(room_id) == old(self).channel_capacity(),
            forall|k: u128| #[trigger] old(self)@.contains_key(k) ==> final(self).room_capacity(k) == old(self).room_capacity(k),
            final(self).channel_capacity() == old(self).channel_capacity(),
    {
        broadcast use vstd::std_specs::hash::group_hash_axioms;

        let sender = match self.rooms.get(&room_id) {
            Some(existing) => existing.new_handle(),
            None => {
                let (opened, _receiver) = open_channel(self.capacity, &self.rooms);
                let sender = opened.new_handle();
                let ghost before = self.rooms@;
                self.rooms.insert(room_id, opened);
                proof {
                    assert(self@ =~= old(self)@.insert(room_id, sender));
                    assert forall|k: u128| old(self)@.contains_key(k) implies #[trigger] old(self)@[k] != self@[room_id] by {
                        assert(before.contains_key(k));
                        assert(old(self)@[k] == before[k].handle());
                    }
                }
                sender
            },
        };
        proof {
            assert(old(self)@.contains_key(room_id) ==> self@ =~= old(self)@);
        }
        let receiver = subscribe_receiver(&sender);
        (sender, receiver)
    }

    /// The sender of a room's channel, if the room has one.
    pub fn sender_for(&self, room_id: u128) -> (r: Option<Sender<ServerEvent>>)
        ensures
            r == (if self@.contains_key(room_id) {
                Some(self@[room_id])
            } else {
                None
            }),
    {
        broadcast use vstd::std_specs::hash::group_hash_axioms;

        match self.rooms.get(&room_id) {
            Some(channel) => Some(channel.new_handle()),
            None => None,
        }
    }

    /// Sends an event to everyone in a room: it is handed to the room's
    /// channel once; a room without a channel gets nothing.
    pub fn publish(&self, room_id: u128, event: ServerEvent) -> (r: Option<SendRecord>)
        ensures
            if self@.contains_key(room_id) {
                r matches Some(record) && record.channel() == self@[room_id] && record.event() == event
            } else {
                r is None
            },
    {
        deliver(self.sender_for(room_id), event)
    }

    /// Called when a connection leaves a room: drops the room's channel when
    /// it is the channel of `sender` and nobody listens to it any more. It
    /// answers with the receiver count it read from the room's channel, which
    /// it reads only when that channel is `sender`'s. No other room is
    /// touched, and a room whose channel is another one than `sender`'s is
    /// never removed.
    pub fn cleanup(&mut self, room_id: u128, sender: &Sender<ServerEvent>) -> (observed: Option<ReceiverCount>)
        ensures
            observed is Some <==> (old(self)@.contains_key(room_id) && old(self)@[room_id] == *sender),
            observed matches Some(count) ==> count.channel() == old(self)@[room_id],
            final(self)@ == (if observed matches Some(count) && count.value() == 0 {
                old(self)@.remove(room_id)
            } else {
                old(self)@
            }),
            forall|k: u128| #[trigger] final(self)@.contains_key(k) ==> final(self).room_capacity(k) == old(self).room_capacity(k),
            final(self).channel_capacity() == old(self).channel_capacity(),
    {
        broadcast use vstd::std_specs::hash::group_hash_axioms;

        let observed = match self.rooms.get(&room_id) {
            Some(current) => {
                if on_same_channel(current.sender(), sender) {
                    Some(live_receivers(current.sender()))
                } else {
                    None
                }
            },
            None => None,
        };
        match &observed {
            Some(count) => self.remove_if_unused(room_id, true, count.count()),
            None => {},
        }
        observed
    }

    /// Drops a room's channel when the room has one, that channel is the one
    /// the leaving connection used (`same_channel`), and it has no receivers
    /// left (`receivers == 0`); otherwise the table stays as it is.
    pub fn remove_if_unused(&mut self, room_id: u128, same_channel: bool, receivers: usize)
        ensures
            final(self)@ == (if old(self)@.contains_key(room_id) && same_channel && receivers == 0 {
                old(self)@.remove(room_id)
            } else {
                old(self)@
            }),
            forall|k: u128| #[trigger] final(self)@.contains_key(k) ==> final(self).room_capacity(k) == old(self).room_capacity(k),
            final(self).channel_capacity() == old(self).channel_capacity(),
    {
        broadcast use vstd::std_specs::hash::group_hash_axioms;

        if same_channel && receivers == 0 && self.rooms.contains_key(&room_id) {
            self.rooms.remove(&room_id);
            proof {
                assert(self@ =~= old(self)@.remove(room_id));
            }
        }
    }
}

} // verus!
