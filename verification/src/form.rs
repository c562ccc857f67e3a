//! The life stages of a pet and the table by which it moves through them.

use vstd::prelude::*;
use crate::behavior::Behavior;
use crate::scale::Graded;
use crate::status::CareLevel;

verus! {

/// Minutes an egg takes to hatch.
pub const EGG_MINUTES: u32 = 5;

/// Minutes a baby takes to become a child.
pub const BABY_MINUTES: u32 = 65;

/// Minutes a child takes to become a teenager: three days.
pub const CHILD_MINUTES: u32 = 4320;

/// Minutes a teenager takes to become an adult: three days.
pub const TEEN_MINUTES: u32 = 4320;

/// Minutes an adult takes to become special, where it can: four days.
pub const ADULT_MINUTES: u32 = 5760;

/// Possible teenager forms.
#[derive(Clone, Copy, Debug, PartialEq, Eq, Structural)]
pub enum TeenForm {
    /// Good care as a child.
    Tongaritchi,
    /// Bad care as a child.
    Hashitamatchi,
}

/// Possible adult forms.
#[derive(Clone, Copy, Debug, PartialEq, Eq, Structural)]
pub enum AdultForm {
    Mimitchi,
    Pochitchi,
    Nyatchi,
    Zuccitchi,
    Hashizoutchi,
    Kusatchi,
    Takotchi,
}

/// Some adults can evolve past adulthood and become special. These are the
/// possible special forms.
#[derive(Clone, Copy, Debug, PartialEq, Eq, Structural)]
pub enum SpecialForm {
    Sekitoritchi,
    Charitchi,
    Zatchi,
}

/// The stage of evolution of a pet's life.
#[derive(Clone, Copy, Debug, PartialEq, Eq, Structural)]
pub enum Form {
    /// The egg.
    Tamago,
    /// The baby, which hatches from the egg.
    Shirobabytchi,
    /// The child.
    Tonmarutchi,
    /// The teen form depends on the care received as a child.
    Teen(TeenForm),
    Adult(AdultForm),
    Special(SpecialForm),
}

impl Default for Form {
    fn default() -> (r: Self)
        ensures
            r == Form::Tamago,
    {
        Form::Tamago
    }
}

impl AdultForm {
    /// The special form this adult can grow into, if it has one.
    pub open spec fn special(self) -> Option<SpecialForm> {
        match self {
            AdultForm::Pochitchi => Some(SpecialForm::Charitchi),
            AdultForm::Zuccitchi => Some(SpecialForm::Sekitoritchi),
            AdultForm::Hashizoutchi => Some(SpecialForm::Zatchi),
            _ => None,
        }
    }

    /// The special form this adult can grow into, if it has one.
    pub fn special_form(&self) -> (r: Option<SpecialForm>)
        ensures
            r == self.special(),
    {
        match self {
            AdultForm::Pochitchi => Some(SpecialForm::Charitchi),
            AdultForm::Zuccitchi => Some(SpecialForm::Sekitoritchi),
            AdultForm::Hashizoutchi => Some(SpecialForm::Zatchi),
            _ => None,
        }
    }
}

impl TeenForm {
    /// The adult a teenager becomes. A well-kept teenager turns into one of
    /// four adults, picked by its behavior and by whether the care is still
    /// good; a badly kept one into one of three, picked by its behavior and,
    /// where that is bad, by whether the care is at least fair.
    pub open spec fn grown(self, care: CareLevel, behavior: Behavior) -> AdultForm {
        match (self, behavior) {
            (TeenForm::Tongaritchi, Behavior::Good) => if care.level() >= 3 {
                AdultForm::Mimitchi
            } else {
                AdultForm::Pochitchi
            },
            (TeenForm::Tongaritchi, Behavior::Bad) => if care.level() >= 3 {
                AdultForm::Nyatchi
            } else {
                AdultForm::Zuccitchi
            },
            (TeenForm::Hashitamatchi, Behavior::Good) => AdultForm::Hashizoutchi,
            (TeenForm::Hashitamatchi, Behavior::Bad) => if care.level() >= 2 {
                AdultForm::Kusatchi
            } else {
                AdultForm::Takotchi
            },
        }
    }

    /// The adult this teenager becomes under the given care and behavior.
    pub fn grow(&self, care: CareLevel, behavior: Behavior) -> (r: AdultForm)
        ensures
            r == self.grown(care, behavior),
    {
        let well_behaved = behavior.is_good();
        match self {
            TeenForm::Tongaritchi => {
                let kept_well = care.is_good();
                if well_behaved && kept_well {
                    AdultForm::Mimitchi
                } else if well_behaved {
                    AdultForm::Pochitchi
                } else if kept_well {
                    AdultForm::Nyatchi
                } else {
                    AdultForm::Zuccitchi
                }
            },
            TeenForm::Hashitamatchi => {
                if well_behaved {
                    AdultForm::Hashizoutchi
                } else if care.is_fair() {
                    AdultForm::Kusatchi
                } else {
                    AdultForm::Takotchi
                }
            },
        }
    }
}

impl Form {
    /// The number of the life stage: 0 for the egg, 1 baby, 2 child, 3 teen,
    /// 4 adult, 5 special.
    pub open spec fn stage(self) -> int {
        match self {
            Form::Tamago => 0,
            Form::Shirobabytchi => 1,
            Form::Tonmarutchi => 2,
            Form::Teen(_) => 3,
            Form::Adult(_) => 4,
            Form::Special(_) => 5,
        }
    }

    /// The minutes a pet spends in this form before it can leave it. The
    /// special forms are final; their entry is never consulted.
    pub open spec fn span(self) -> int {
        match self {
            Form::Tamago => EGG_MINUTES as int,
            Form::Shirobabytchi => BABY_MINUTES as int,
            Form::Tonmarutchi => CHILD_MINUTES as int,
            Form::Teen(_) => TEEN_MINUTES as int,
            Form::Adult(_) => ADULT_MINUTES as int,
            Form::Special(_) => 0,
        }
    }

    /// The form that follows this one once its time is up. Egg and baby move
    /// on whatever the care. A child becomes the well-kept teenager exactly
    /// when the care is good. An adult becomes special only if it has a
    /// special form, the care is good and it behaves well; otherwise, and in
    /// a special form, the pet stays as it is.
    pub open spec fn successor(self, care: CareLevel, behavior: Behavior) -> Form {
        match self {
            Form::Tamago => Form::Shirobabytchi,
            Form::Shirobabytchi => Form::Tonmarutchi,
            Form::Tonmarutchi => Form::Teen(
                if care.level() >= 3 {
                    TeenForm::Tongaritchi
                } else {
                    TeenForm::Hashitamatchi
                },
            ),
            Form::Teen(teen) => Form::Adult(teen.grown(care, behavior)),
            Form::Adult(adult) => match adult.special() {
                Some(special) if care.level() >= 3 && behavior == Behavior::Good => Form::Special(
                    special,
                ),
                _ => self,
            },
            Form::Special(_) => self,
        }
    }

    /// The form after `elapsed` minutes in this one: the successor if the
    /// form's span has passed, else the form itself.
    pub open spec fn evolved(self, elapsed: int, care: CareLevel, behavior: Behavior) -> Form {
        if elapsed >= self.span() {
            self.successor(care, behavior)
        } else {
            self
        }
    }

    /// The number of the life stage, from 0 for the egg to 5 for a special
    /// form.
    pub fn stage_number(&self) -> (n: u8)
        ensures
            n == self.stage(),
    {
        match self {
            Form::Tamago => 0,
            Form::Shirobabytchi => 1,
            Form::Tonmarutchi => 2,
            Form::Teen(_) => 3,
            Form::Adult(_) => 4,
            Form::Special(_) => 5,
        }
    }

    /// The next form of a pet that has spent `elapsed` minutes in this one,
    /// under the care it has received and the behavior it shows at this
    /// moment. The result is this form or a form of the next stage, never an
    /// earlier one.
    pub fn evolve(&self, elapsed: u32, care: CareLevel, behavior: Behavior) -> (r: Form)
        ensures
            r == self.evolved(elapsed as int, care, behavior),
            r == *self || r.stage() == self.stage() + 1,
    {
        match self {
            Form::Tamago => if elapsed >= EGG_MINUTES {
                Form::Shirobabytchi
            } else {
                *self
            },
            Form::Shirobabytchi => if elapsed >= BABY_MINUTES {
                Form::Tonmarutchi
            } else {
                *self
            },
            Form::Tonmarutchi => if elapsed < CHILD_MINUTES {
                *self
            } else if care.is_good() {
                Form::Teen(TeenForm::Tongaritchi)
            } else {
                Form::Teen(TeenForm::Hashitamatchi)
            },
            Form::Teen(teen) => if elapsed >= TEEN_MINUTES {
                Form::Adult(teen.grow(care, behavior))
            } else {
                *self
            },
            Form::Adult(adult) => {
                if elapsed >= ADULT_MINUTES && care.is_good() && behavior.is_good() {
                    match adult.special_form() {
                        Some(special) => Form::Special(special),
                        None => *self,
                    }
                } else {
                    *self
                }
            },
            Form::Special(_) => *self,
        }
    }
}

/// One evolution never goes back: the form stays, or moves to the stage
/// right after its own.
pub proof fn lemma_evolved_moves_forward(
    form: Form,
    elapsed: int,
    care: CareLevel,
    behavior: Behavior,
)
    ensures
        form.evolved(elapsed, care, behavior) == form || form.evolved(
            elapsed,
            care,
            behavior,
        ).stage() == form.stage() + 1,
        form.evolved(elapsed, care, behavior).stage() >= form.stage(),
        elapsed < form.span() ==> form.evolved(elapsed, care, behavior) == form,
{
}

/// Egg, baby, child and teenager always move on once their time is up.
pub proof fn lemma_young_forms_move_on(
    form: Form,
    elapsed: int,
    care: CareLevel,
    behavior: Behavior,
)
    requires
        form.stage() <= 3,
        elapsed >= form.span(),
    ensures
        form.evolved(elapsed, care, behavior).stage() == form.stage() + 1,
{
}

} // verus!
