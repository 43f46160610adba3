//! The pet's mood as it follows the chat: what the user and the model do
//! moves it between listening, thinking, speaking, sleeping and idling.

use vstd::prelude::*;

verus! {

/// The mood the pet shows.
#[derive(Debug, Clone, Copy, PartialEq, Eq, Structural)]
pub enum PetState {
    Idle,
    Listening,
    Thinking,
    Speaking,
    Sleeping,
}

/// Something that happened around the pet.
#[derive(Debug, Clone, PartialEq, Eq)]
pub enum PetEvent {
    UserClicked,
    UserMessage(String),
    ModelStarted,
    ModelFinished,
    SleepRequested,
}

/// The mood after `event`: chat activity sets the mood whatever it was, a
/// request to sleep puts the pet to sleep, and a click wakes a sleeping pet
/// and is otherwise ignored.
pub open spec fn mood_after(state: PetState, event: PetEvent) -> PetState {
    match event {
        PetEvent::UserMessage(_) => PetState::Listening,
        PetEvent::ModelStarted => PetState::Thinking,
        PetEvent::ModelFinished => PetState::Speaking,
        PetEvent::SleepRequested => PetState::Sleeping,
        PetEvent::UserClicked => if state == PetState::Sleeping {
            PetState::Idle
        } else {
            state
        },
    }
}

impl PetState {
    /// Reacts to one event.
    pub fn on_event(self, event: &PetEvent) -> (r: Self)
        ensures
            r == mood_after(self, *event),
    {
        match (self, event) {
            (_, PetEvent::UserMessage(_)) => PetState::Listening,
            (_, PetEvent::ModelStarted) => PetState::Thinking,
            (_, PetEvent::ModelFinished) => PetState::Speaking,
            (_, PetEvent::SleepRequested) => PetState::Sleeping,
            (PetState::Sleeping, PetEvent::UserClicked) => PetState::Idle,
            (state, _) => state,
        }
    }
}

/// Every event other than a click decides the mood alone: the mood before it
/// does not matter.
pub proof fn lemma_non_click_events_ignore_mood(a: PetState, b: PetState, event: PetEvent)
    requires
        !(event is UserClicked),
    ensures
        mood_after(a, event) == mood_after(b, event),
{
}

/// Reacting to the same event twice is the same as reacting once.
pub proof fn lemma_reaction_is_idempotent(state: PetState, event: PetEvent)
    ensures
        mood_after(mood_after(state, event), event) == mood_after(state, event),
{
}

/// A click changes the mood only of a sleeping pet, which it makes idle.
pub proof fn lemma_click_only_wakes(state: PetState)
    ensures
        mood_after(state, PetEvent::UserClicked) != state <==> state == PetState::Sleeping,
        state == PetState::Sleeping ==> mood_after(state, PetEvent::UserClicked) == PetState::Idle,
{
}

/// Chat activity sets the mood from any mood, whatever the message says: a
/// message makes the pet listen, the model starting makes it think, the model
/// finishing makes it speak, and a sleep request puts it to sleep.
pub proof fn lemma_chat_activity_sets_the_mood(state: PetState, content: String)
    ensures
        mood_after(state, PetEvent::UserMessage(content)) == PetState::Listening,
        mood_after(state, PetEvent::ModelStarted) == PetState::Thinking,
        mood_after(state, PetEvent::ModelFinished) == PetState::Speaking,
        mood_after(state, PetEvent::SleepRequested) == PetState::Sleeping,
{
}

} // verus!
