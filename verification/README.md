# rust_ai_chat

A desktop pet and a small room-based chat server, whose logic is proved against its contracts.

- `src/` — the verified library:
  - `pet_domain`: the pet's state machine (commands, transitions, snapshots, revisions).
  - `pet_mood`: the pet's mood as it follows chat activity.
  - `pet_view`: poses, faces and captions, which incoming snapshot is shown, blinking.
  - `desktop`: applying a command from the front end and answering with a snapshot or a message.
  - `chat`: chat messages and the service that creates them under fresh random ids.
  - `protocol`: the events exchanged over a room's WebSocket.
  - `connection`: what a connection does with a client event, and when it stops.
  - `channel`: the broadcast channel handles the room table uses, and records of what was done with them.
  - `hub`: the table of rooms and their broadcast channels.
- `app/` — the server program: axum routes, the WebSocket loop, the shared lock around the
  room table, JSON forms of the events, and the desktop shell's command handlers.
- `tests/` — tests of the library.
