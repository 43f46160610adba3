use rust_ai_chat::pet_mood::{PetEvent, PetState};

#[test]
fn message_moves_pet_to_listening() {
    let state = PetState::Idle;
    assert_eq!(
        state.on_event(&PetEvent::UserMessage("hello".into())),
        PetState::Listening
    );
}

const ALL: [PetState; 5] = [
    PetState::Idle,
    PetState::Listening,
    PetState::Thinking,
    PetState::Speaking,
    PetState::Sleeping,
];

#[test]
fn chat_activity_sets_mood_from_any_state() {
    for s in ALL {
        assert_eq!(s.on_event(&PetEvent::UserMessage(String::new())), PetState::Listening);
        assert_eq!(s.on_event(&PetEvent::ModelStarted), PetState::Thinking);
        assert_eq!(s.on_event(&PetEvent::ModelFinished), PetState::Speaking);
        assert_eq!(s.on_event(&PetEvent::SleepRequested), PetState::Sleeping);
    }
}

#[test]
fn click_only_wakes_sleeping_pet() {
    for s in ALL {
        let expected = if s == PetState::Sleeping { PetState::Idle } else { s };
        assert_eq!(s.on_event(&PetEvent::UserClicked), expected);
    }
}

#[test]
fn reacting_twice_equals_reacting_once() {
    let events = [
        PetEvent::UserClicked,
        PetEvent::UserMessage("hi".into()),
        PetEvent::ModelStarted,
        PetEvent::ModelFinished,
        PetEvent::SleepRequested,
    ];
    for s in ALL {
        for e in events.iter() {
            assert_eq!(s.on_event(e).on_event(e), s.on_event(e));
        }
    }
}
