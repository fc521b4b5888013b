use vstd::prelude::*;
use crate::tamagotchi::{clamp_level, count_set, PetState, MEDICINE_SIDE_EFFECT};

verus! {

/// One update keeps a well-formed pet well-formed: its levels stay within
/// `0..=MAX_LEVEL` and its face shows its flags.
pub proof fn lemma_step_keeps_wf(pet: PetState, hunger_delta: i8, health_delta: i8, poison_delta: i8)
    requires
        pet.wf(),
    ensures
        pet.step(hunger_delta, health_delta, poison_delta).wf(),
{
}

/// Whatever sequence of updates a well-formed pet goes through, each level ends within
/// `0..=MAX_LEVEL`; a sequence may stop anywhere, so this holds after every update.
pub proof fn lemma_levels_stay_in_range(pet: PetState, updates: Seq<(i8, i8, i8)>)
    requires
        pet.wf(),
    ensures
        pet.run(updates).levels_in_range(),
        pet.run(updates).wf(),
    decreases updates.len(),
{
    if updates.len() > 0 {
        let (hunger_delta, health_delta, poison_delta) = updates[0];
        lemma_step_keeps_wf(pet, hunger_delta, health_delta, poison_delta);
        lemma_levels_stay_in_range(
            pet.step(hunger_delta, health_delta, poison_delta),
            updates.drop_first(),
        );
    }
}

/// A dead pet is left exactly as it is, levels, flags and face, by any sequence of updates.
pub proof fn lemma_dead_pet_is_frozen(pet: PetState, updates: Seq<(i8, i8, i8)>)
    requires
        pet.dead,
    ensures
        pet.run(updates) == pet,
    decreases updates.len(),
{
    if updates.len() > 0 {
        lemma_dead_pet_is_frozen(pet, updates.drop_first());
    }
}

/// An update that brings any level to zero or below kills the pet in that same update,
/// and it stays dead through any later updates.
pub proof fn lemma_floor_kills(
    pet: PetState,
    hunger_delta: i8,
    health_delta: i8,
    poison_delta: i8,
    later: Seq<(i8, i8, i8)>,
)
    requires
        pet.hits_floor(hunger_delta, health_delta, poison_delta),
    ensures
        pet.step(hunger_delta, health_delta, poison_delta).dead,
        pet.step(hunger_delta, health_delta, poison_delta).run(later).dead,
{
    lemma_dead_pet_is_frozen(pet.step(hunger_delta, health_delta, poison_delta), later);
}

/// An update after which two or more warning flags are set leaves the pet dead.
pub proof fn lemma_two_warnings_kill(
    pet: PetState,
    hunger_delta: i8,
    health_delta: i8,
    poison_delta: i8,
)
    requires
        count_set(
            pet.step(hunger_delta, health_delta, poison_delta).sick,
            pet.step(hunger_delta, health_delta, poison_delta).hungry,
            pet.step(hunger_delta, health_delta, poison_delta).poisoned,
        ) >= 2,
    ensures
        pet.step(hunger_delta, health_delta, poison_delta).dead,
{
}

/// A positive health delta lowers the unclamped poisoning by exactly `MEDICINE_SIDE_EFFECT`,
/// whatever the poison delta, as long as neither sum leaves the range of `i8`.
pub proof fn lemma_medicine_costs_poison(
    pet: PetState,
    hunger_delta: i8,
    health_delta: i8,
    poison_delta: i8,
)
    requires
        pet.levels_in_range(),
        health_delta > 0,
        i8::MIN <= pet.poisoning - MEDICINE_SIDE_EFFECT + poison_delta,
        pet.poisoning + poison_delta <= i8::MAX,
    ensures
        pet.poisoning_before_clamp(health_delta, poison_delta) == pet.poisoning
            - MEDICINE_SIDE_EFFECT + poison_delta,
        pet.poisoning_before_clamp(health_delta, poison_delta) == pet.poisoning_before_clamp(
            0i8,
            poison_delta,
        ) - MEDICINE_SIDE_EFFECT,
        !pet.dead ==> pet.step(hunger_delta, health_delta, poison_delta).poisoning == clamp_level(
            pet.poisoning - MEDICINE_SIDE_EFFECT + poison_delta,
        ),
{
}

} // verus!
