//! Domain logic of a desktop pet and of a small chat server: the pet's state
//! machine, its reactions to chat activity, how the front end shows it, chat
//! messages, the wire events, the per-room channel table and the decisions
//! that a connection makes.

pub mod pet_domain;
pub mod pet_mood;
pub mod pet_view;
pub mod chat;
pub mod protocol;
pub mod connection;
pub mod channel;
pub mod hub;
pub mod desktop;
