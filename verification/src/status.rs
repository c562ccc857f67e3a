//! The condition of a pet at one instant, and what each action does to it.

use vstd::prelude::*;
use crate::behavior::Behavior;
use crate::scale::{
    lowered, raised, step_up, BetterOrWorse, Discipline, Graded, Health, Hearts, Hunger, Mood,
};

verus! {

/// The highest care score: every attribute at its top level.
pub const MAX_CARE_SCORE: u32 = 16;

/// The level of care a pet receives.
#[derive(Clone, Copy, Debug, PartialEq, Eq, Structural)]
pub enum CareLevel {
    Bad,
    BelowAverage,
    AboveAverage,
    Good,
    Perfect,
}

impl Graded for CareLevel {
    open spec fn level(&self) -> int {
        match self {
            CareLevel::Bad => 0,
            CareLevel::BelowAverage => 1,
            CareLevel::AboveAverage => 2,
            CareLevel::Good => 3,
            CareLevel::Perfect => 4,
        }
    }

    open spec fn at(level: int) -> Self {
        if level <= 0 {
            CareLevel::Bad
        } else if level == 1 {
            CareLevel::BelowAverage
        } else if level == 2 {
            CareLevel::AboveAverage
        } else if level == 3 {
            CareLevel::Good
        } else {
            CareLevel::Perfect
        }
    }

    proof fn lemma_scale(v: Self, level: int) {
    }
}

impl Default for CareLevel {
    fn default() -> (r: Self)
        ensures
            r == CareLevel::Good,
    {
        CareLevel::Good
    }
}

impl CareLevel {
    /// Whether the care reaches three quarters of the highest score, which
    /// is where the band `Good` begins.
    pub fn is_good(&self) -> (r: bool)
        ensures
            r == (self.level() >= 3),
    {
        match self {
            CareLevel::Good | CareLevel::Perfect => true,
            _ => false,
        }
    }

    /// Whether the care reaches half of the highest score.
    pub fn is_fair(&self) -> (r: bool)
        ensures
            r == (self.level() >= 2),
    {
        match self {
            CareLevel::Bad | CareLevel::BelowAverage => false,
            _ => true,
        }
    }
}

/// The pet's room light.
#[derive(Clone, Copy, Debug, PartialEq, Eq, Structural)]
pub enum Light {
    On,
    Off,
}

impl Light {
    /// The other state of the switch.
    pub fn toggled(&self) -> (r: Light)
        ensures
            r != *self,
    {
        match self {
            Light::On => Light::Off,
            Light::Off => Light::On,
        }
    }
}

/// The condition of a pet. The care level is no field: it is derived from
/// the four graded attributes whenever it is asked for.
#[derive(Clone, Copy, Debug, PartialEq, Eq, Structural)]
pub struct Status {
    pub hunger: Hunger,
    pub light: Light,
    pub asleep: bool,
    pub mood: Mood,
    pub sick: bool,
    pub soiled: bool,
    pub health: Health,
    pub discipline: Discipline,
}

impl Default for Status {
    fn default() -> (r: Self)
        ensures
            r == Status::initial(),
    {
        Status {
            hunger: Hunger::Starving,
            light: Light::On,
            asleep: false,
            mood: Mood::Miserable,
            sick: false,
            soiled: false,
            health: Health::Neglected,
            discipline: Discipline::ModelAlien,
        }
    }
}

impl Status {
    /// The condition of a pet that nobody has cared for yet: awake, with the
    /// light on, clean and not sick, at the bottom of hunger, mood and
    /// health and at the top of discipline.
    pub open spec fn initial() -> Status {
        Status {
            hunger: Hunger::Starving,
            light: Light::On,
            asleep: false,
            mood: Mood::Miserable,
            sick: false,
            soiled: false,
            health: Health::Neglected,
            discipline: Discipline::ModelAlien,
        }
    }

    /// The sum of the three heart gauges and the discipline meter.
    pub open spec fn care_score(self) -> int {
        self.hunger.level() + self.mood.level() + self.health.level() + self.discipline.level()
    }

    /// The care level: scores fall into bands of four, and the highest score
    /// has the top band to itself.
    pub open spec fn care(self) -> CareLevel {
        CareLevel::at(self.care_score() / 4)
    }

    /// After a meal: hunger one level better.
    pub open spec fn fed(self) -> Status {
        Status { hunger: raised(self.hunger), ..self }
    }

    /// After a game: mood one level better.
    pub open spec fn played(self) -> Status {
        Status { mood: raised(self.mood), ..self }
    }

    /// After a sleep: mood and health one level better each.
    pub open spec fn slept(self) -> Status {
        Status { mood: raised(self.mood), health: raised(self.health), ..self }
    }

    /// With the light switched over.
    pub open spec fn switched(self) -> Status {
        Status {
            light: match self.light {
                Light::On => Light::Off,
                Light::Off => Light::On,
            },
            ..self
        }
    }

    /// After medicine: a sick pet is cured and its health one level better;
    /// a pet that is not sick is as before.
    pub open spec fn treated(self) -> Status {
        if self.sick {
            Status { sick: false, health: raised(self.health), ..self }
        } else {
            self
        }
    }

    /// After cleaning: not soiled.
    pub open spec fn cleaned(self) -> Status {
        Status { soiled: false, ..self }
    }

    /// After attention: mood one level better.
    pub open spec fn comforted(self) -> Status {
        Status { mood: raised(self.mood), ..self }
    }

    /// After a scolding: discipline one level better if the pet then
    /// behaves well, one level worse if it does not.
    pub open spec fn scolded(self, outcome: Behavior) -> Status {
        Status {
            discipline: match outcome {
                Behavior::Good => raised(self.discipline),
                Behavior::Bad => lowered(self.discipline),
            },
            ..self
        }
    }

    /// The care score as a number, from 0 to 16.
    pub fn score(&self) -> (n: u32)
        ensures
            n == self.care_score(),
            n <= MAX_CARE_SCORE,
    {
        self.hunger.hearts() + self.mood.hearts() + self.health.hearts() + self.discipline.meter()
    }

    /// Determines the level of care the pet receives.
    pub fn care_level(&self) -> (r: CareLevel)
        ensures
            r == self.care(),
    {
        let care: u32 = self.score();
        if care < 4 {
            CareLevel::Bad
        } else if care < 8 {
            CareLevel::BelowAverage
        } else if care < 12 {
            CareLevel::AboveAverage
        } else if care < MAX_CARE_SCORE {
            CareLevel::Good
        } else {
            CareLevel::Perfect
        }
    }

    /// The status after the pet eats.
    pub fn eat(&self) -> (r: Status)
        ensures
            r == self.fed(),
    {
        Status { hunger: self.hunger.better(), ..*self }
    }

    /// The status after the pet plays.
    pub fn play(&self) -> (r: Status)
        ensures
            r == self.played(),
    {
        Status { mood: self.mood.better(), ..*self }
    }

    /// The status after the pet sleeps.
    pub fn sleep(&self) -> (r: Status)
        ensures
            r == self.slept(),
    {
        Status { mood: self.mood.better(), health: self.health.better(), ..*self }
    }

    /// The status after the light switch is pressed.
    pub fn light(&self) -> (r: Status)
        ensures
            r == self.switched(),
    {
        Status { light: self.light.toggled(), ..*self }
    }

    /// The status after the pet is given medicine.
    pub fn give_medicine(&self) -> (r: Status)
        ensures
            r == self.treated(),
    {
        if self.sick {
            Status { sick: false, health: self.health.better(), ..*self }
        } else {
            *self
        }
    }

    /// The status after the pet is cleaned up after.
    pub fn duck(&self) -> (r: Status)
        ensures
            r == self.cleaned(),
    {
        Status { soiled: false, ..*self }
    }

    /// The status after the pet is given attention.
    pub fn attention(&self) -> (r: Status)
        ensures
            r == self.comforted(),
    {
        Status { mood: self.mood.better(), ..*self }
    }

    /// The status after the pet is scolded and then behaves as `outcome`
    /// says.
    pub fn discipline(&self, outcome: Behavior) -> (r: Status)
        ensures
            r == self.scolded(outcome),
    {
        let discipline = match outcome {
            Behavior::Good => self.discipline.better(),
            Behavior::Bad => self.discipline.worse(),
        };
        Status { discipline, ..*self }
    }
}

/// One sleep moves both mood and health one level up, or leaves them at the
/// top; nothing else changes.
pub proof fn lemma_sleep(s: Status)
    ensures
        s.slept().mood.level() == step_up(s.mood.level()),
        s.slept().health.level() == step_up(s.health.level()),
        s.slept() == (Status { mood: s.slept().mood, health: s.slept().health, ..s }),
{
}

/// The care level depends on the four scores alone: two conditions with the
/// same scores have the same care level, whatever else differs.
pub proof fn lemma_care_depends_on_scores(a: Status, b: Status)
    requires
        a.hunger.level() == b.hunger.level(),
        a.mood.level() == b.mood.level(),
        a.health.level() == b.health.level(),
        a.discipline.level() == b.discipline.level(),
    ensures
        a.care() == b.care(),
{
}

/// The score lies between 0 and 16 and picks the band: four scores to each
/// of the lower bands, and 16 alone, with every attribute at its top, to
/// `Perfect`.
pub proof fn lemma_care_bands(s: Status)
    ensures
        0 <= s.care_score() <= 16,
        s.care() == CareLevel::Bad <==> s.care_score() <= 3,
        s.care() == CareLevel::BelowAverage <==> 4 <= s.care_score() <= 7,
        s.care() == CareLevel::AboveAverage <==> 8 <= s.care_score() <= 11,
        s.care() == CareLevel::Good <==> 12 <= s.care_score() <= 15,
        s.care() == CareLevel::Perfect <==> s.care_score() == 16,
        s.care() == CareLevel::Perfect <==> s.hunger == Hunger::Full && s.mood == Mood::Cheerful
            && s.health == Health::Eggcellent && s.discipline == Discipline::ModelAlien,
{
}

} // verus!
