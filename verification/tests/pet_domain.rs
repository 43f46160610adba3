use rust_ai_chat::desktop::apply_pet_command;
use rust_ai_chat::pet_domain::{
    accepts_command,
    InvalidTransition, PetCommand, PetError, PetEvent, PetMachine, PetSnapshot, PetState,
};

#[test]
fn idle_interact_finish_sleep_wake() {
    let mut pet = PetMachine::default();
    assert_eq!(
        pet.dispatch(PetCommand::Interact),
        Ok(PetEvent::StateChanged {
            from: PetState::Idle,
            to: PetState::Interacting
        })
    );
    assert_eq!(
        pet.dispatch(PetCommand::FinishInteraction),
        Ok(PetEvent::StateChanged {
            from: PetState::Interacting,
            to: PetState::Idle
        })
    );
    assert_eq!(
        pet.dispatch(PetCommand::Sleep),
        Ok(PetEvent::StateChanged {
            from: PetState::Idle,
            to: PetState::Sleeping
        })
    );
    assert_eq!(
        pet.dispatch(PetCommand::Wake),
        Ok(PetEvent::StateChanged {
            from: PetState::Sleeping,
            to: PetState::Idle
        })
    );
    assert_eq!(pet.snapshot().revision, 4);
}

#[test]
fn invalid_transition_preserves_snapshot() {
    let mut pet = PetMachine::default();
    pet.dispatch(PetCommand::Sleep).unwrap();
    let before = pet.snapshot();
    assert_eq!(
        pet.dispatch(PetCommand::Interact),
        Err(InvalidTransition {
            state: PetState::Sleeping,
            command: PetCommand::Interact
        })
    );
    assert_eq!(pet.snapshot(), before);
}

#[test]
fn interaction_can_be_interrupted_by_sleep() {
    let mut pet = PetMachine::default();
    pet.dispatch(PetCommand::Interact).unwrap();
    assert_eq!(
        pet.dispatch(PetCommand::Sleep),
        Ok(PetEvent::StateChanged {
            from: PetState::Interacting,
            to: PetState::Sleeping
        })
    );
}

#[test]
fn new_pet_is_idle_at_revision_zero() {
    let pet = PetMachine::default();
    assert_eq!(
        pet.snapshot(),
        PetSnapshot {
            state: PetState::Idle,
            revision: 0
        }
    );
    assert_eq!(PetSnapshot::default(), pet.snapshot());
    assert_eq!(PetState::default(), PetState::Idle);
}

#[test]
fn every_refused_command_keeps_snapshot() {
    let refused = [
        (vec![], PetCommand::FinishInteraction),
        (vec![], PetCommand::Wake),
        (vec![PetCommand::Interact], PetCommand::Interact),
        (vec![PetCommand::Interact], PetCommand::Wake),
        (vec![PetCommand::Sleep], PetCommand::Interact),
        (vec![PetCommand::Sleep], PetCommand::FinishInteraction),
        (vec![PetCommand::Sleep], PetCommand::Sleep),
    ];
    for (setup, command) in refused {
        let mut pet = PetMachine::default();
        for c in setup {
            pet.dispatch(c).unwrap();
        }
        let before = pet.snapshot();
        assert_eq!(
            pet.dispatch(command),
            Err(InvalidTransition {
                state: before.state,
                command
            })
        );
        assert_eq!(pet.snapshot(), before);
    }
}

#[test]
fn revision_counts_only_accepted_commands() {
    let mut pet = PetMachine::default();
    let commands = [
        PetCommand::Wake,
        PetCommand::Interact,
        PetCommand::Interact,
        PetCommand::Sleep,
        PetCommand::Sleep,
        PetCommand::Wake,
        PetCommand::FinishInteraction,
    ];
    let mut accepted = 0;
    for c in commands {
        let before = pet.snapshot().revision;
        if pet.dispatch(c).is_ok() {
            accepted += 1;
            assert_eq!(pet.snapshot().revision, before + 1);
        } else {
            assert_eq!(pet.snapshot().revision, before);
        }
    }
    assert_eq!(accepted, 3);
    assert_eq!(pet.snapshot().revision, 3);
    assert_eq!(pet.snapshot().state, PetState::Idle);
}

#[test]
fn invalid_transition_message() {
    let error = InvalidTransition {
        state: PetState::Sleeping,
        command: PetCommand::Interact,
    };
    assert_eq!(error.to_string(), "cannot apply Interact in Sleeping");
    let error = InvalidTransition {
        state: PetState::Interacting,
        command: PetCommand::FinishInteraction,
    };
    assert_eq!(error.to_string(), "cannot apply FinishInteraction in Interacting");
}

#[test]
fn pet_error_message() {
    let error = PetError::InvalidTransition {
        state: PetState::Idle,
        command: PetCommand::Wake,
    };
    assert_eq!(error.to_string(), "cannot execute Wake while pet is Idle");
}

#[test]
fn apply_pet_command_answers_snapshot_or_message() {
    let mut pet = PetMachine::default();
    assert_eq!(
        apply_pet_command(&mut pet, PetCommand::Interact),
        Ok(PetSnapshot {
            state: PetState::Interacting,
            revision: 1
        })
    );
    assert_eq!(
        apply_pet_command(&mut pet, PetCommand::Wake),
        Err(String::from("cannot apply Wake in Interacting"))
    );
    assert_eq!(
        pet.snapshot(),
        PetSnapshot {
            state: PetState::Interacting,
            revision: 1
        }
    );
}

#[test]
fn successive_events_chain_and_count_revisions() {
    let mut pet = PetMachine::default();
    let commands = [
        PetCommand::Interact,
        PetCommand::Wake,
        PetCommand::Sleep,
        PetCommand::Interact,
        PetCommand::Wake,
        PetCommand::Sleep,
        PetCommand::Interact,
    ];
    let mut last_to = PetState::Idle;
    let mut accepted = 0u64;
    for c in commands {
        let state = pet.snapshot().state;
        let expected_ok = accepts_command(state, c);
        match pet.dispatch(c) {
            Ok(PetEvent::StateChanged { from, to }) => {
                assert!(expected_ok);
                assert_eq!(from, last_to);
                last_to = to;
                accepted += 1;
            }
            Err(_) => assert!(!expected_ok),
        }
    }
    assert_eq!(accepted, 4);
    assert_eq!(pet.snapshot().revision, accepted);
    assert_eq!(pet.snapshot().state, last_to);
    assert_eq!(last_to, PetState::Sleeping);
}
