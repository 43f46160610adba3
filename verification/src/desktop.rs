//! What the desktop shell does with a command from the front end: apply it to
//! the pet and answer with the new snapshot or the reason it was refused.

use vstd::prelude::*;
use crate::pet_domain::{PetCommand, PetMachine, PetSnapshot, accepts, invalid_transition_message, step};

verus! {

/// Applies `command` and answers with the snapshot after it, or with the
/// message of the refusal (the pet is then unchanged).
pub fn apply_pet_command(pet: &mut PetMachine, command: PetCommand) -> (r: Result<PetSnapshot, String>)
    requires
        accepts(old(pet)@.state, command) ==> old(pet)@.revision < u64::MAX,
    ensures
        final(pet)@ == step(old(pet)@, command),
        accepts(old(pet)@.state, command) ==> r == Ok::<PetSnapshot, String>(final(pet)@),
        !accepts(old(pet)@.state, command) ==> (r matches Err(message) && message@
            == invalid_transition_message(old(pet)@.state, command)),
{
    match pet.dispatch(command) {
        Ok(_) => Ok(pet.snapshot()),
        Err(error) => Err(error.to_string()),
    }
}

} // verus!
