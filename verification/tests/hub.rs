use rust_ai_chat::hub::RoomHub;
use rust_ai_chat::protocol::ServerEvent;

#[test]
fn first_subscription_opens_the_room() {
    let mut table = RoomHub::new(4);
    assert!(table.sender_for(1).is_none());
    let (sender, _receiver) = table.subscribe(1);
    let stored = table.sender_for(1).unwrap();
    assert!(stored.same_channel(&sender));
    assert!(table.sender_for(2).is_none());
}

#[test]
fn later_subscriptions_share_the_channel() {
    let mut table = RoomHub::new(4);
    let (a, _ra) = table.subscribe(1);
    let (b, _rb) = table.subscribe(1);
    assert!(a.same_channel(&b));
    assert_eq!(a.receiver_count(), 2);
}

#[test]
fn publish_reaches_subscribers_of_the_room_only() {
    let mut table = RoomHub::new(4);
    let (_s1, r1) = table.subscribe(1);
    let (_s2, r2) = table.subscribe(2);
    let mut r1 = r1.into_receiver();
    let mut r2 = r2.into_receiver();
    let sent = table.publish(1, ServerEvent::Pong).unwrap();
    assert_eq!(sent.queued(), Some(1));
    assert_eq!(r1.try_recv().unwrap(), ServerEvent::Pong);
    assert!(r2.try_recv().is_err());
    assert!(table.publish(3, ServerEvent::Pong).is_none());
    assert!(r1.try_recv().is_err());
}

#[test]
fn cleanup_drops_room_without_listeners() {
    let mut table = RoomHub::new(4);
    let (sender, receiver) = table.subscribe(1);
    assert_eq!(table.cleanup(1, &sender).map(|c| c.count()), Some(1));
    assert!(table.sender_for(1).is_some());
    drop(receiver);
    assert_eq!(table.cleanup(1, &sender).map(|c| c.count()), Some(0));
    assert!(table.sender_for(1).is_none());
    assert!(table.cleanup(1, &sender).is_none());
}

#[test]
fn cleanup_keeps_a_room_of_another_channel() {
    let mut table = RoomHub::new(4);
    let (old_sender, old_receiver) = table.subscribe(1);
    drop(old_receiver);
    table.cleanup(1, &old_sender);
    assert!(table.sender_for(1).is_none());
    let (_new_sender, new_receiver) = table.subscribe(1);
    drop(new_receiver);
    assert!(table.cleanup(1, &old_sender).is_none());
    assert!(table.sender_for(1).is_some());
}

#[test]
fn remove_if_unused_needs_room_same_channel_and_no_receivers() {
    let mut table = RoomHub::new(4);
    let (_sender, _receiver) = table.subscribe(1);
    table.remove_if_unused(1, false, 0);
    assert!(table.sender_for(1).is_some());
    table.remove_if_unused(1, true, 2);
    assert!(table.sender_for(1).is_some());
    table.remove_if_unused(2, true, 0);
    assert!(table.sender_for(1).is_some());
    table.remove_if_unused(1, true, 0);
    assert!(table.sender_for(1).is_none());
}

#[test]
fn receivers_of_one_room_share_its_channel() {
    let mut table = RoomHub::new(4);
    let (s1, r1) = table.subscribe(9);
    let (_s2, r2) = table.subscribe(9);
    let mut r1 = r1.into_receiver();
    let mut r2 = r2.into_receiver();
    s1.send(ServerEvent::Pong).unwrap();
    assert_eq!(r1.try_recv().unwrap(), ServerEvent::Pong);
    assert_eq!(r2.try_recv().unwrap(), ServerEvent::Pong);
}

#[test]
fn publish_with_no_listener_queues_nothing() {
    let mut table = RoomHub::new(4);
    let (_sender, receiver) = table.subscribe(1);
    drop(receiver);
    let sent = table.publish(1, ServerEvent::Pong).unwrap();
    assert_eq!(sent.queued(), None);
}

#[test]
fn a_new_room_gets_its_own_channel() {
    let mut table = RoomHub::new(4);
    let (a, _ra) = table.subscribe(1);
    let (b, _rb) = table.subscribe(2);
    assert!(!a.same_channel(&b));
}
