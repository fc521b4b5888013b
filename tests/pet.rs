use tamagotchi::commands::{command_deltas, decay, press_key};
use tamagotchi::Tamagotchi;

const HEALTHY_FACE: [[usize; 8]; 8] = [
    [0, 0, 0, 0, 0, 0, 0, 0],
    [0, 0, 0, 0, 0, 0, 0, 0],
    [0, 1, 1, 0, 0, 1, 1, 0],
    [0, 1, 1, 0, 0, 1, 1, 0],
    [0, 0, 0, 0, 0, 0, 0, 0],
    [0, 1, 0, 0, 0, 0, 1, 0],
    [0, 0, 1, 1, 1, 1, 0, 0],
    [0, 0, 0, 0, 0, 0, 0, 0],
];

fn levels(pet: &Tamagotchi) -> (i8, i8, i8) {
    (pet.hunger(), pet.health(), pet.poisoning())
}

fn face(pet: &Tamagotchi) -> [[usize; 8]; 8] {
    pet.render().0
}

fn assert_in_range(pet: &Tamagotchi) {
    let (hunger, health, poisoning) = levels(pet);
    assert!((0..=10).contains(&hunger));
    assert!((0..=10).contains(&health));
    assert!((0..=10).contains(&poisoning));
}

#[test]
fn new_pet_is_full_and_healthy() {
    let pet = Tamagotchi::new();
    assert_eq!(levels(&pet), (10, 10, 10));
    assert!(!pet.is_dead());
    assert!(!pet.is_sick());
    assert!(!pet.is_hungry());
    assert!(!pet.is_poisoned());
    assert_eq!(face(&pet), HEALTHY_FACE);
}

#[test]
fn neutral_update_keeps_a_fresh_pet() {
    let mut pet = Tamagotchi::new();
    pet.update(0, 0, 0);
    assert_eq!(levels(&pet), (10, 10, 10));
    assert!(!pet.is_dead());
    assert!(!pet.is_sick() && !pet.is_hungry() && !pet.is_poisoned());
    assert_eq!(face(&pet), HEALTHY_FACE);
}

#[test]
fn five_decays_leave_levels_at_the_threshold() {
    let mut pet = Tamagotchi::new();
    for _ in 0..5 {
        pet.update(-1, -1, 2);
    }
    assert_eq!(levels(&pet), (5, 5, 10));
    assert!(!pet.is_dead());
    assert!(!pet.is_hungry());
    assert!(!pet.is_sick());
}

#[test]
fn sixth_decay_kills_through_two_warnings() {
    let mut pet = Tamagotchi::new();
    for _ in 0..6 {
        decay(&mut pet);
    }
    assert_eq!(levels(&pet), (4, 4, 10));
    assert!(pet.is_hungry() && pet.is_sick());
    assert!(pet.is_dead());
}

#[test]
fn hunger_reaching_zero_kills_in_that_update() {
    let mut pet = Tamagotchi::new();
    for _ in 0..9 {
        pet.update(-1, 0, 0);
        assert!(!pet.is_dead());
    }
    assert_eq!(levels(&pet), (1, 10, 10));
    assert!(pet.is_hungry());
    pet.update(-1, 0, 0);
    assert!(pet.is_dead());
    assert_eq!(levels(&pet), (0, 10, 10));
}

#[test]
fn one_large_drop_kills_at_once() {
    let mut pet = Tamagotchi::new();
    pet.update(-10, 0, 0);
    assert!(pet.is_dead());
    assert_eq!(levels(&pet), (0, 10, 10));
    // a level at the floor does not raise its warning flag
    assert!(!pet.is_hungry());
    assert_eq!(face(&pet), HEALTHY_FACE);
}

#[test]
fn medicine_from_fresh_costs_three_poisoning() {
    let mut pet = Tamagotchi::new();
    pet.update(0, 7, 0);
    assert_eq!(pet.poisoning(), 7);
    assert_eq!(pet.health(), 10);
    assert_eq!(pet.hunger(), 10);
    assert!(!pet.is_dead());
}

#[test]
fn medicine_cost_comes_with_an_explicit_poison_delta() {
    let mut pet = Tamagotchi::new();
    pet.update(0, 1, 2);
    assert_eq!(pet.poisoning(), 9);
    let mut other = Tamagotchi::new();
    other.update(0, 0, -4);
    other.update(0, 3, 1);
    assert_eq!(other.poisoning(), 4);
    assert!(other.is_poisoned());
}

#[test]
fn no_medicine_cost_without_healing() {
    let mut pet = Tamagotchi::new();
    pet.update(0, 0, -2);
    assert_eq!(pet.poisoning(), 8);
    pet.update(0, -1, 0);
    assert_eq!(pet.poisoning(), 8);
}

#[test]
fn dead_pet_ignores_updates() {
    let mut pet = Tamagotchi::new();
    pet.update(-6, 0, -7);
    assert!(pet.is_dead());
    let before = pet.render();
    let flags = (pet.is_sick(), pet.is_hungry(), pet.is_poisoned());
    pet.update(5, 7, 2);
    pet.update(-128, -128, -128);
    decay(&mut pet);
    press_key(&mut pet, 'f');
    assert_eq!(pet.render(), before);
    assert_eq!((pet.is_sick(), pet.is_hungry(), pet.is_poisoned()), flags);
    assert!(pet.is_dead());
}

#[test]
fn two_warnings_kill_with_levels_above_zero() {
    let mut pet = Tamagotchi::new();
    pet.update(0, -6, -6);
    assert_eq!(levels(&pet), (10, 4, 4));
    assert!(pet.is_sick() && pet.is_poisoned());
    assert!(pet.is_dead());
}

#[test]
fn one_warning_is_not_fatal() {
    let mut pet = Tamagotchi::new();
    pet.update(0, 0, -6);
    assert!(pet.is_poisoned());
    assert!(!pet.is_dead());
}

#[test]
fn extreme_deltas_saturate_and_clamp() {
    let mut pet = Tamagotchi::new();
    pet.update(127, 127, 127);
    assert_eq!(levels(&pet), (10, 10, 10));
    assert!(!pet.is_dead());
    pet.update(-128, -128, -128);
    assert_eq!(levels(&pet), (0, 0, 0));
    assert!(pet.is_dead());
}

#[test]
fn levels_stay_in_range_over_mixed_updates() {
    let mut pet = Tamagotchi::new();
    let updates: [(i8, i8, i8); 8] = [
        (3, 4, 5),
        (-2, 9, 0),
        (100, -3, 100),
        (0, 0, -1),
        (-1, -1, 2),
        (-3, 7, -2),
        (0, 0, 0),
        (-120, 0, 0),
    ];
    for (hunger_delta, health_delta, poison_delta) in updates {
        pet.update(hunger_delta, health_delta, poison_delta);
        assert_in_range(&pet);
    }
    assert!(pet.is_dead());
}

#[test]
fn sick_face_closes_the_eyes() {
    let mut pet = Tamagotchi::new();
    pet.update(0, -6, 0);
    assert!(pet.is_sick() && !pet.is_dead());
    let mut expected = HEALTHY_FACE;
    expected[2] = [0, 0, 0, 0, 0, 0, 0, 0];
    assert_eq!(face(&pet), expected);
}

#[test]
fn hungry_face_opens_the_mouth() {
    let mut pet = Tamagotchi::new();
    pet.update(-6, 0, 0);
    assert!(pet.is_hungry() && !pet.is_dead());
    let mut expected = HEALTHY_FACE;
    expected[5] = [0, 1, 1, 1, 1, 1, 1, 0];
    expected[6] = [0, 0, 0, 0, 0, 0, 0, 0];
    assert_eq!(face(&pet), expected);
}

#[test]
fn poisoned_face_shows_the_tongue() {
    let mut pet = Tamagotchi::new();
    pet.update(0, 0, -6);
    let mut expected = HEALTHY_FACE;
    expected[7] = [0, 0, 0, 1, 1, 0, 0, 0];
    assert_eq!(face(&pet), expected);
}

#[test]
fn hungry_and_poisoned_face_at_death() {
    let mut pet = Tamagotchi::new();
    pet.update(-6, 0, -6);
    assert!(pet.is_dead());
    let mut expected = HEALTHY_FACE;
    expected[5] = [0, 1, 1, 1, 1, 1, 1, 0];
    expected[6] = [0, 0, 0, 1, 1, 0, 0, 0];
    expected[7] = [0, 0, 0, 1, 1, 0, 0, 0];
    assert_eq!(face(&pet), expected);
}

#[test]
fn feeding_restores_the_healthy_face() {
    let mut pet = Tamagotchi::new();
    pet.update(-6, 0, 0);
    assert!(pet.is_hungry());
    pet.update(5, 0, 0);
    assert_eq!(pet.hunger(), 9);
    assert!(!pet.is_hungry());
    assert_eq!(face(&pet), HEALTHY_FACE);
}

#[test]
fn draw_repeats_the_same_face() {
    let mut pet = Tamagotchi::new();
    pet.update(-6, 0, 0);
    let before = pet.render();
    pet.draw();
    assert_eq!(pet.render(), before);
}

#[test]
fn keys_map_to_deltas() {
    assert_eq!(command_deltas('f'), (5, 0));
    assert_eq!(command_deltas('c'), (0, 7));
    assert_eq!(command_deltas('x'), (0, 0));
    assert_eq!(command_deltas('F'), (0, 0));
}

#[test]
fn feed_key_feeds() {
    let mut pet = Tamagotchi::new();
    pet.update(-6, 0, 0);
    press_key(&mut pet, 'f');
    assert_eq!(pet.hunger(), 9);
    assert_eq!(pet.poisoning(), 10);
}

#[test]
fn cure_key_heals_with_side_effect() {
    let mut pet = Tamagotchi::new();
    pet.update(0, -4, 0);
    press_key(&mut pet, 'c');
    assert_eq!(pet.health(), 10);
    assert_eq!(pet.poisoning(), 7);
}

#[test]
fn line_ends_are_dropped() {
    let mut pet = Tamagotchi::new();
    pet.update(-9, 0, 0);
    let before = (pet.render(), pet.is_hungry(), pet.is_dead());
    press_key(&mut pet, '\n');
    press_key(&mut pet, '\r');
    assert_eq!((pet.render(), pet.is_hungry(), pet.is_dead()), before);
}

#[test]
fn other_keys_are_neutral_updates() {
    let mut pet = Tamagotchi::new();
    press_key(&mut pet, 'z');
    assert_eq!(levels(&pet), (10, 10, 10));
    assert!(!pet.is_dead());
}

#[test]
fn decay_lowers_hunger_and_health() {
    let mut pet = Tamagotchi::new();
    pet.update(0, 0, -5);
    decay(&mut pet);
    assert_eq!(levels(&pet), (9, 9, 7));
}
