use vstd::prelude::*;
use crate::tamagotchi::{PetState, Tamagotchi};

verus! {

/// The key that feeds the pet.
pub const FEED_KEY: char = 'f';

/// The key that gives the pet medicine.
pub const CURE_KEY: char = 'c';

/// Hunger restored by one meal.
pub const MEAL: i8 = 5;

/// Health restored by one dose of medicine.
pub const DOSE: i8 = 7;

/// Hunger delta of the passive decay that every tick applies.
pub const DECAY_HUNGER: i8 = -1;

/// Health delta of the passive decay that every tick applies.
pub const DECAY_HEALTH: i8 = -1;

/// Poison delta of the passive recovery that every tick applies.
pub const DECAY_POISON: i8 = 2;

/// The hunger and health deltas that a key stands for; other keys stand for none.
pub open spec fn key_effect(key: char) -> (i8, i8) {
    if key == FEED_KEY {
        (MEAL, 0)
    } else if key == CURE_KEY {
        (0, DOSE)
    } else {
        (0, 0)
    }
}

/// Whether a key only ends a line of input and is dropped before it reaches the pet.
pub open spec fn is_line_end(key: char) -> bool {
    key == '\n' || key == '\r'
}

/// The pet after a key is pressed: line ends are dropped, every other key is one update
/// with its deltas and no poison delta.
pub open spec fn after_key(pet: PetState, key: char) -> PetState {
    if is_line_end(key) {
        pet
    } else {
        pet.step(key_effect(key).0, key_effect(key).1, 0)
    }
}

/// The hunger and health deltas of a key: a meal for `FEED_KEY`, a dose for `CURE_KEY`,
/// nothing for any other key.
pub fn command_deltas(key: char) -> (r: (i8, i8))
    ensures
        r == key_effect(key),
{
    if key == FEED_KEY {
        (MEAL, 0)
    } else if key == CURE_KEY {
        (0, DOSE)
    } else {
        (0, 0)
    }
}

/// Passes one key of input to the pet.
pub fn press_key(pet: &mut Tamagotchi, key: char)
    requires
        old(pet).wf(),
    ensures
        final(pet).wf(),
        final(pet)@ == after_key(old(pet)@, key),
{
    if key == '\n' || key == '\r' {
        return ;
    }
    let (hunger_delta, health_delta) = command_deltas(key);
    pet.update(hunger_delta, health_delta, 0);
}

/// One tick of passive decay: hunger and health drop, poisoning recovers.
pub fn decay(pet: &mut Tamagotchi)
    requires
        old(pet).wf(),
    ensures
        final(pet).wf(),
        final(pet)@ == old(pet)@.step(DECAY_HUNGER, DECAY_HEALTH, DECAY_POISON),
{
    pet.update(DECAY_HUNGER, DECAY_HEALTH, DECAY_POISON);
}

} // verus!
