use vstd::prelude::*;

verus! {

/// Highest value of each level; a new pet starts with every level here.
pub const MAX_LEVEL: i8 = 10;

/// A level that stays above zero but falls below this raises its warning flag.
pub const LOW_LEVEL: i8 = 5;

/// Poisoning that every dose of medicine costs.
pub const MEDICINE_SIDE_EFFECT: i8 = 3;

/// Number of rows, and of columns, of the face.
pub const FACE_SIZE: usize = 8;

/// `x` held to the range of `i8`, as saturating arithmetic does.
pub open spec fn saturate(x: int) -> int {
    if x < i8::MIN {
        i8::MIN as int
    } else if x > i8::MAX {
        i8::MAX as int
    } else {
        x
    }
}

/// `x` held to the range of a level, `0..=MAX_LEVEL`.
pub open spec fn clamp_level(x: int) -> int {
    if x < 0 {
        0
    } else if x > MAX_LEVEL {
        MAX_LEVEL as int
    } else {
        x
    }
}

/// Poisoning taken on before the explicit poison delta, for a given health delta.
pub open spec fn medicine_cost(health_delta: int) -> int {
    if health_delta > 0 {
        MEDICINE_SIDE_EFFECT as int
    } else {
        0
    }
}

/// A warning flag after an update that brought its level to `raw`, before clamping:
/// a level at or below zero leaves the flag as it was (it kills the pet instead).
pub open spec fn low_flag_after(flag: bool, raw: int) -> bool {
    if raw <= 0 {
        flag
    } else {
        raw < LOW_LEVEL
    }
}

/// How many of three flags are set.
pub open spec fn count_set(a: bool, b: bool, c: bool) -> int {
    (if a { 1int } else { 0int }) + (if b { 1int } else { 0int }) + (if c { 1int } else { 0int })
}

/// The columns of the two eyes.
pub open spec fn eye_column(c: int) -> bool {
    c == 1 || c == 2 || c == 5 || c == 6
}

/// Upper half of the eyes: closed when the pet is sick.
pub open spec fn on_eyelid(r: int, c: int) -> bool {
    r == 2 && eye_column(c)
}

/// Lower half of the eyes: always drawn.
pub open spec fn on_eye_base(r: int, c: int) -> bool {
    r == 3 && eye_column(c)
}

/// Upper lip: only its corners are drawn unless the pet is hungry.
pub open spec fn on_lip(r: int, c: int) -> bool {
    r == 5 && 1 <= c <= 6
}

/// Lower lip: drawn only while the pet is not hungry.
pub open spec fn on_jaw(r: int, c: int) -> bool {
    r == 6 && 2 <= c <= 5
}

/// The tongue's columns.
pub open spec fn tongue_column(c: int) -> bool {
    c == 3 || c == 4
}

/// Part of the tongue that covers the lower lip.
pub open spec fn on_tongue_root(r: int, c: int) -> bool {
    r == 6 && tongue_column(c)
}

/// Part of the tongue below the mouth.
pub open spec fn on_tongue_tip(r: int, c: int) -> bool {
    r == 7 && tongue_column(c)
}

/// Cells that drawing the face ever writes; all others are background.
pub open spec fn in_face(r: int, c: int) -> bool {
    on_eyelid(r, c) || on_eye_base(r, c) || on_lip(r, c) || on_jaw(r, c) || on_tongue_tip(r, c)
}

/// The cell at row `r`, column `c` of the face drawn for the given warning flags.
pub open spec fn face_cell(sick: bool, hungry: bool, poisoned: bool, r: int, c: int) -> usize {
    if on_eyelid(r, c) {
        if sick { 0 } else { 1 }
    } else if on_eye_base(r, c) {
        1
    } else if on_lip(r, c) {
        if hungry || c == 1 || c == 6 { 1 } else { 0 }
    } else if on_tongue_root(r, c) && poisoned {
        1
    } else if on_jaw(r, c) {
        if hungry { 0 } else { 1 }
    } else if on_tongue_tip(r, c) {
        if poisoned { 1 } else { 0 }
    } else {
        0
    }
}

/// The whole face drawn for the given warning flags, row by row.
pub open spec fn face(sick: bool, hungry: bool, poisoned: bool) -> Seq<Seq<usize>> {
    Seq::new(
        FACE_SIZE as nat,
        |r: int| Seq::new(FACE_SIZE as nat, |c: int| face_cell(sick, hungry, poisoned, r, c)),
    )
}

/// The pet as a mathematical value: its three levels, its four flags and its face.
pub struct PetState {
    pub hunger: int,
    pub health: int,
    pub poisoning: int,
    pub sick: bool,
    pub hungry: bool,
    pub poisoned: bool,
    pub dead: bool,
    pub grid: Seq<Seq<usize>>,
}

impl PetState {
    /// A newly made pet.
    pub open spec fn fresh() -> PetState {
        PetState {
            hunger: MAX_LEVEL as int,
            health: MAX_LEVEL as int,
            poisoning: MAX_LEVEL as int,
            sick: false,
            hungry: false,
            poisoned: false,
            dead: false,
            grid: face(false, false, false),
        }
    }

    /// Every level within `0..=MAX_LEVEL`.
    pub open spec fn levels_in_range(self) -> bool {
        &&& 0 <= self.hunger <= MAX_LEVEL
        &&& 0 <= self.health <= MAX_LEVEL
        &&& 0 <= self.poisoning <= MAX_LEVEL
    }

    /// The levels are in range and the face shows the current warning flags.
    pub open spec fn wf(self) -> bool {
        &&& self.levels_in_range()
        &&& self.grid == face(self.sick, self.hungry, self.poisoned)
    }

    /// Whether every cell outside the face is background (zero).
    pub open spec fn background_clear(self) -> bool {
        forall|r: int, c: int|
            0 <= r < FACE_SIZE && 0 <= c < FACE_SIZE && !in_face(r, c) ==> #[trigger] self.grid[r][c]
                == 0
    }

    /// Hunger after an update, before it is clamped.
    pub open spec fn hunger_before_clamp(self, hunger_delta: i8) -> int {
        saturate(self.hunger + hunger_delta)
    }

    /// Health after an update, before it is clamped.
    pub open spec fn health_before_clamp(self, health_delta: i8) -> int {
        saturate(self.health + health_delta)
    }

    /// Poisoning after an update, before it is clamped: the medicine's cost comes first,
    /// then the explicit delta, each added with saturation.
    pub open spec fn poisoning_before_clamp(self, health_delta: i8, poison_delta: i8) -> int {
        saturate(saturate(self.poisoning - medicine_cost(health_delta as int)) + poison_delta)
    }

    /// Whether some level reaches zero or less in this update.
    pub open spec fn hits_floor(self, hunger_delta: i8, health_delta: i8, poison_delta: i8) -> bool {
        ||| self.hunger_before_clamp(hunger_delta) <= 0
        ||| self.health_before_clamp(health_delta) <= 0
        ||| self.poisoning_before_clamp(health_delta, poison_delta) <= 0
    }

    /// The pet after one update with the given deltas; a dead pet does not change.
    pub open spec fn step(self, hunger_delta: i8, health_delta: i8, poison_delta: i8) -> PetState {
        if self.dead {
            self
        } else {
            let hunger = self.hunger_before_clamp(hunger_delta);
            let health = self.health_before_clamp(health_delta);
            let poisoning = self.poisoning_before_clamp(health_delta, poison_delta);
            let hungry = low_flag_after(self.hungry, hunger);
            let sick = low_flag_after(self.sick, health);
            let poisoned = low_flag_after(self.poisoned, poisoning);
            PetState {
                hunger: clamp_level(hunger),
                health: clamp_level(health),
                poisoning: clamp_level(poisoning),
                sick,
                hungry,
                poisoned,
                dead: self.hits_floor(hunger_delta, health_delta, poison_delta) || count_set(
                    sick,
                    hungry,
                    poisoned,
                ) >= 2,
                grid: face(sick, hungry, poisoned),
            }
        }
    }

    /// The pet after a sequence of updates, applied in order.
    pub open spec fn run(self, updates: Seq<(i8, i8, i8)>) -> PetState
        decreases updates.len(),
    {
        if updates.len() == 0 {
            self
        } else {
            let (hunger_delta, health_delta, poison_delta) = updates[0];
            self.step(hunger_delta, health_delta, poison_delta).run(updates.drop_first())
        }
    }
}

/// `a + b`, held to the range of `i8`.
fn add_saturating(a: i8, b: i8) -> (r: i8)
    ensures
        r == saturate(a + b),
{
    let sum: i16 = a as i16 + b as i16;
    if sum < i8::MIN as i16 {
        i8::MIN
    } else if sum > i8::MAX as i16 {
        i8::MAX
    } else {
        sum as i8
    }
}

/// `x` held to the range of a level.
fn clamped(x: i8) -> (r: i8)
    ensures
        r == clamp_level(x as int),
{
    if x < 0 {
        0
    } else if x > MAX_LEVEL {
        MAX_LEVEL
    } else {
        x
    }
}

/// The virtual pet: three levels that decay and respond to care, four status flags,
/// and the 8-by-8 face that shows the flags.
#[derive(Clone, Debug)]
pub struct Tamagotchi {
    display: [[usize; 8]; 8],
    hunger: i8,
    health: i8,
    poisoning: i8,
    sick: bool,
    hungry: bool,
    poisoned: bool,
    dead: bool,
}

impl View for Tamagotchi {
    type V = PetState;

    closed spec fn view(&self) -> PetState {
        PetState {
            hunger: self.hunger as int,
            health: self.health as int,
            poisoning: self.poisoning as int,
            sick: self.sick,
            hungry: self.hungry,
            poisoned: self.poisoned,
            dead: self.dead,
            grid: self.display@.map_values(|row: [usize; 8]| row@),
        }
    }
}

impl Tamagotchi {
    /// The type's invariant: levels in range and the face up to date.
    pub open spec fn wf(&self) -> bool {
        self@.wf()
    }

    /// A new pet: every level at its maximum, no flag set, the healthy face drawn.
    pub fn new() -> (r: Self)
        ensures
            r.wf(),
            r@ == PetState::fresh(),
    {
        let mut pet = Tamagotchi {
            display: [[0usize; 8]; 8],
            hunger: MAX_LEVEL,
            health: MAX_LEVEL,
            poisoning: MAX_LEVEL,
            sick: false,
            hungry: false,
            poisoned: false,
            dead: false,
        };
        pet.draw();
        pet
    }

    /// Applies one update. A dead pet is left as it is. Otherwise each delta is added with
    /// saturation (healing first costs `MEDICINE_SIDE_EFFECT` poisoning), each level sets
    /// its warning flag or the dead flag from its unclamped value, the levels are clamped,
    /// two or more warnings kill the pet, and the face is redrawn.
    pub fn update(&mut self, hu: i8, he: i8, po: i8)
        requires
            old(self).wf(),
        ensures
            final(self).wf(),
            final(self)@ == old(self)@.step(hu, he, po),
    {
        if self.is_dead() {
            return ;
        }
        self.hunger = add_saturating(self.hunger, hu);
        self.health = add_saturating(self.health, he);
        if he > 0 {
            self.add_poison();
        }
        self.poisoning = add_saturating(self.poisoning, po);

        if self.hunger <= 0 {
            self.dead = true;
        } else if self.hunger < LOW_LEVEL {
            self.hungry = true;
        } else {
            self.hungry = false;
        }
        self.hunger = clamped(self.hunger);

        if self.health <= 0 {
            self.dead = true;
        } else if self.health < LOW_LEVEL {
            self.sick = true;
        } else {
            self.sick = false;
        }
        self.health = clamped(self.health);

        if self.poisoning <= 0 {
            self.dead = true;
        } else if self.poisoning < LOW_LEVEL {
            self.poisoned = true;
        } else {
            self.poisoned = false;
        }
        self.poisoning = clamped(self.poisoning);

        self.update_death();
        self.draw();
    }

    /// Sets the dead flag when two or more warning flags are set.
    fn update_death(&mut self)
        ensures
            final(self).dead == (old(self).dead || count_set(
                old(self).sick,
                old(self).hungry,
                old(self).poisoned,
            ) >= 2),
            final(self).display == old(self).display,
            final(self).hunger == old(self).hunger,
            final(self).health == old(self).health,
            final(self).poisoning == old(self).poisoning,
            final(self).sick == old(self).sick,
            final(self).hungry == old(self).hungry,
            final(self).poisoned == old(self).poisoned,
    {
        let warnings: u8 = (if self.sick { 1u8 } else { 0u8 }) + (if self.hungry { 1u8 } else { 0u8 }) + (
        if self.poisoned { 1u8 } else { 0u8 });
        if warnings >= 2 {
            self.dead = true;
        }
    }

    /// Takes the poisoning that a dose of medicine costs.
    fn add_poison(&mut self)
        ensures
            final(self).poisoning == saturate(old(self).poisoning - MEDICINE_SIDE_EFFECT),
            final(self).display == old(self).display,
            final(self).hunger == old(self).hunger,
            final(self).health == old(self).health,
            final(self).sick == old(self).sick,
            final(self).hungry == old(self).hungry,
            final(self).poisoned == old(self).poisoned,
            final(self).dead == old(self).dead,
    {
        self.poisoning = add_saturating(self.poisoning, -MEDICINE_SIDE_EFFECT);
    }
    /// Whether `self` and `other` differ at most in their display.
    spec fn same_but_display(&self, other: &Self) -> bool {
        &&& self.hunger == other.hunger
        &&& self.health == other.health
        &&& self.poisoning == other.poisoning
        &&& self.sick == other.sick
        &&& self.hungry == other.hungry
        &&& self.poisoned == other.poisoned
        &&& self.dead == other.dead
    }

    /// Sets columns `from..to` of row `r` to `v`, leaving every other cell as it was.
    fn paint_row(&mut self, r: usize, from: usize, to: usize, v: usize)
        requires
            r < FACE_SIZE,
            from <= to <= FACE_SIZE,
        ensures
            final(self).same_but_display(old(self)),
            forall|i: int, j: int|
                0 <= i < FACE_SIZE && 0 <= j < FACE_SIZE ==> #[trigger] final(self).display[i][j] == if i
                    == r && from <= j < to {
                    v
                } else {
                    old(self).display[i][j]
                },
    {
        let mut j: usize = from;
        while j < to
            invariant
                from <= j <= to,
                r < FACE_SIZE,
                to <= FACE_SIZE,
                self.same_but_display(old(self)),
                forall|i: int, k: int|
                    0 <= i < FACE_SIZE && 0 <= k < FACE_SIZE ==> #[trigger] self.display[i][k] == if i
                        == r && from <= k < j {
                        v
                    } else {
                        old(self).display[i][k]
                    },
            decreases to - j,
        {
            self.display[r][j] = v;
            j += 1;
        }
    }

    /// Redraws the face from the warning flags: the eyes show whether the pet is sick, the
    /// mouth whether it is hungry, the tongue whether it is poisoned. Background cells are
    /// left untouched.
    pub fn draw(&mut self)
        requires
            old(self)@.background_clear(),
        ensures
            final(self)@ == (PetState {
                grid: face(old(self)@.sick, old(self)@.hungry, old(self)@.poisoned),
                ..old(self)@
            }),
    {
        let eyelid: usize = if self.sick { 0 } else { 1 };
        self.paint_row(2, 1, 3, eyelid);
        self.paint_row(2, 5, 7, eyelid);
        self.paint_row(3, 1, 3, 1);
        self.paint_row(3, 5, 7, 1);

        if self.hungry {
            self.paint_row(5, 1, 7, 1);
            self.paint_row(6, 2, 6, 0);
        } else {
            self.paint_row(5, 1, 2, 1);
            self.paint_row(5, 2, 6, 0);
            self.paint_row(5, 6, 7, 1);
            self.paint_row(6, 2, 6, 1);
        }

        if self.poisoned {
            self.paint_row(6, 3, 5, 1);
            self.paint_row(7, 3, 5, 1);
        } else {
            self.paint_row(7, 3, 5, 0);
        }

        proof {
            let f = face(self.sick, self.hungry, self.poisoned);
            assert forall|r: int, c: int| 0 <= r < FACE_SIZE && 0 <= c < FACE_SIZE implies #[trigger] self@.grid[r][c] == f[r][c] by {
                assert(self@.grid[r][c] == self.display[r][c]);
                assert(old(self)@.grid[r][c] == old(self).display[r][c]);
            }
            assert(self@.grid =~~= f);
        }
    }

    /// Whether the pet has died.
    pub fn is_dead(&self) -> (r: bool)
        ensures
            r == self@.dead,
    {
        self.dead
    }
    /// The hunger level.
    pub fn hunger(&self) -> (r: i8)
        ensures
            r == self@.hunger,
    {
        self.hunger
    }

    /// The health level.
    pub fn health(&self) -> (r: i8)
        ensures
            r == self@.health,
    {
        self.health
    }

    /// The poisoning level (higher is better: it counts down as poison builds up).
    pub fn poisoning(&self) -> (r: i8)
        ensures
            r == self@.poisoning,
    {
        self.poisoning
    }

    /// Whether the health warning flag is set.
    pub fn is_sick(&self) -> (r: bool)
        ensures
            r == self@.sick,
    {
        self.sick
    }

    /// Whether the hunger warning flag is set.
    pub fn is_hungry(&self) -> (r: bool)
        ensures
            r == self@.hungry,
    {
        self.hungry
    }

    /// Whether the poisoning warning flag is set.
    pub fn is_poisoned(&self) -> (r: bool)
        ensures
            r == self@.poisoned,
    {
        self.poisoned
    }

    /// What a display shows: the face, then the hunger, health and poisoning levels.
    pub fn render(&self) -> (r: ([[usize; 8]; 8], i8, i8, i8))
        ensures
            r.0@.map_values(|row: [usize; 8]| row@) == self@.grid,
            r.1 == self@.hunger,
            r.2 == self@.health,
            r.3 == self@.poisoning,
    {
        (self.display, self.hunger, self.health, self.poisoning)
    }
}

} // verus!
