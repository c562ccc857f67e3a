//! The pet itself: who it is, how much it weighs, what form it has, and how
//! each action and each stretch of time changes it.

use vstd::prelude::*;
use crate::behavior::Behavior;
use crate::form::Form;
use crate::scale::{step_up, Graded};
use crate::status::{CareLevel, Status};

verus! {

/// What a meal adds to the weight, in tenths of a unit.
pub const MEAL_GAIN: i64 = 5;

/// What a game takes off the weight, in tenths of a unit.
pub const PLAY_LOSS: i64 = 2;

/// The gender of a pet.
#[derive(Clone, Copy, Debug, PartialEq, Eq, Structural)]
pub enum Gender {
    Male,
    Female,
}

/// The "egg-watch": the character the user looks after.
///
/// The weight is kept in tenths of a unit, so that half a unit gained at a
/// meal and a fifth lost at play are exact. Every action hands back a new
/// pet and leaves the old one as it was.
#[derive(Debug, PartialEq, Eq)]
pub struct Tamagotchi {
    name: String,
    gender: Gender,
    age: u32,
    weight: i64,
    form: Form,
    status: Status,
}

/// A pet as the contracts see it.
pub ghost struct PetModel {
    pub name: Seq<char>,
    pub gender: Gender,
    pub age: nat,
    /// In tenths of a unit.
    pub weight: int,
    pub form: Form,
    pub status: Status,
}

/// What can happen to a pet: one of the user's actions, or time passing.
#[derive(Clone, Copy, Debug, PartialEq, Eq, Structural)]
pub enum Event {
    Feed,
    Light,
    Play,
    Medicine,
    Duck,
    Attention,
    /// A scolding, with how the pet behaves after it.
    Discipline(Behavior),
    /// The minutes the pet has spent in its form, with how it behaves at
    /// this moment.
    Advance(u32, Behavior),
}

impl PetModel {
    /// A freshly laid egg: no age, no weight, nobody has cared for it yet.
    pub open spec fn egg(name: Seq<char>, gender: Gender) -> PetModel {
        PetModel { name, gender, age: 0, weight: 0, form: Form::Tamago, status: Status::initial() }
    }

    /// After a meal: heavier by the meal's gain, hunger one level better.
    pub open spec fn fed(self) -> PetModel {
        PetModel { weight: self.weight + MEAL_GAIN, status: self.status.fed(), ..self }
    }

    /// After a game: lighter by the game's loss, mood one level better.
    pub open spec fn played(self) -> PetModel {
        PetModel { weight: self.weight - PLAY_LOSS, status: self.status.played(), ..self }
    }

    /// With another condition and everything else as before.
    pub open spec fn in_condition(self, status: Status) -> PetModel {
        PetModel { status, ..self }
    }

    /// After `elapsed` minutes in the present form. The form evolves under
    /// the care level that the pet had when the time was up; a pet that is
    /// asleep has slept. Age and weight are as before.
    pub open spec fn advanced(self, elapsed: int, behavior: Behavior) -> PetModel {
        PetModel {
            form: self.form.evolved(elapsed, self.status.care(), behavior),
            status: if self.status.asleep {
                self.status.slept()
            } else {
                self.status
            },
            ..self
        }
    }

    /// Whether the weight after the event still fits the machine's integer.
    pub open spec fn can_take(self, event: Event) -> bool {
        match event {
            Event::Feed => self.weight + MEAL_GAIN <= i64::MAX,
            Event::Play => self.weight - PLAY_LOSS >= i64::MIN,
            _ => true,
        }
    }

    /// The pet after one event.
    pub open spec fn after(self, event: Event) -> PetModel {
        match event {
            Event::Feed => self.fed(),
            Event::Light => self.in_condition(self.status.switched()),
            Event::Play => self.played(),
            Event::Medicine => self.in_condition(self.status.treated()),
            Event::Duck => self.in_condition(self.status.cleaned()),
            Event::Attention => self.in_condition(self.status.comforted()),
            Event::Discipline(outcome) => self.in_condition(self.status.scolded(outcome)),
            Event::Advance(elapsed, behavior) => self.advanced(elapsed as int, behavior),
        }
    }

    /// The pet after a run of events, the first of them first.
    pub open spec fn after_all(self, events: Seq<Event>) -> PetModel
        decreases events.len(),
    {
        if events.len() == 0 {
            self
        } else {
            self.after_all(events.drop_last()).after(events.last())
        }
    }
}

impl View for Tamagotchi {
    type V = PetModel;

    closed spec fn view(&self) -> PetModel {
        PetModel {
            name: self.name@,
            gender: self.gender,
            age: self.age as nat,
            weight: self.weight as int,
            form: self.form,
            status: self.status,
        }
    }
}

impl Clone for Tamagotchi {
    fn clone(&self) -> (r: Self)
        ensures
            r@ == self@,
    {
        Tamagotchi {
            name: self.name.clone(),
            gender: self.gender,
            age: self.age,
            weight: self.weight,
            form: self.form,
            status: self.status,
        }
    }
}

impl Tamagotchi {
    /// A new pet: an egg of the given name and gender.
    pub fn new(name: String, gender: Gender) -> (r: Self)
        ensures
            r@ == PetModel::egg(name@, gender),
    {
        Tamagotchi {
            name,
            gender,
            age: 0,
            weight: 0,
            form: Form::default(),
            status: Status::default(),
        }
    }

    /// Feed the pet.
    pub fn feed(&self) -> (r: Self)
        requires
            self@.weight + MEAL_GAIN <= i64::MAX,
        ensures
            r@ == self@.fed(),
    {
        Tamagotchi {
            name: self.name.clone(),
            gender: self.gender,
            age: self.age,
            weight: self.weight + MEAL_GAIN,
            form: self.form,
            status: self.status.eat(),
        }
    }

    /// Turn the light on or off.
    pub fn light(&self) -> (r: Self)
        ensures
            r@ == self@.in_condition(self@.status.switched()),
    {
        self.with_status(self.status.light())
    }

    /// Play with the pet.
    pub fn play(&self) -> (r: Self)
        requires
            self@.weight - PLAY_LOSS >= i64::MIN,
        ensures
            r@ == self@.played(),
    {
        Tamagotchi {
            name: self.name.clone(),
            gender: self.gender,
            age: self.age,
            weight: self.weight - PLAY_LOSS,
            form: self.form,
            status: self.status.play(),
        }
    }

    /// Give the pet medicine; it helps only a sick pet.
    pub fn give_medicine(&self) -> (r: Self)
        ensures
            r@ == self@.in_condition(self@.status.treated()),
    {
        self.with_status(self.status.give_medicine())
    }

    /// Clean up after the pet.
    pub fn duck(&self) -> (r: Self)
        ensures
            r@ == self@.in_condition(self@.status.cleaned()),
    {
        self.with_status(self.status.duck())
    }

    /// Give the pet attention.
    pub fn attention(&self) -> (r: Self)
        ensures
            r@ == self@.in_condition(self@.status.comforted()),
    {
        self.with_status(self.status.attention())
    }

    /// Discipline the pet; `outcome` is how it behaves afterwards.
    pub fn discipline(&self, outcome: Behavior) -> (r: Self)
        ensures
            r@ == self@.in_condition(self@.status.scolded(outcome)),
    {
        self.with_status(self.status.discipline(outcome))
    }

    /// Let time pass: `elapsed` is the minutes the pet has spent in its
    /// present form, `behavior` how it behaves at this moment.
    pub fn advance(&self, elapsed: u32, behavior: Behavior) -> (r: Self)
        ensures
            r@ == self@.advanced(elapsed as int, behavior),
            r@.form.stage() >= self@.form.stage(),
    {
        let form = self.form.evolve(elapsed, self.status.care_level(), behavior);
        let status = if self.status.asleep {
            self.status.sleep()
        } else {
            self.status
        };
        Tamagotchi {
            name: self.name.clone(),
            gender: self.gender,
            age: self.age,
            weight: self.weight,
            form,
            status,
        }
    }

    /// The pet after one event.
    pub fn apply(&self, event: Event) -> (r: Self)
        requires
            self@.can_take(event),
        ensures
            r@ == self@.after(event),
    {
        match event {
            Event::Feed => self.feed(),
            Event::Light => self.light(),
            Event::Play => self.play(),
            Event::Medicine => self.give_medicine(),
            Event::Duck => self.duck(),
            Event::Attention => self.attention(),
            Event::Discipline(outcome) => self.discipline(outcome),
            Event::Advance(elapsed, behavior) => self.advance(elapsed, behavior),
        }
    }

    /// The same pet in another condition: for what befalls it from outside,
    /// such as falling asleep, falling ill or soiling itself.
    pub fn with_status(&self, status: Status) -> (r: Self)
        ensures
            r@ == self@.in_condition(status),
    {
        Tamagotchi {
            name: self.name.clone(),
            gender: self.gender,
            age: self.age,
            weight: self.weight,
            form: self.form,
            status,
        }
    }

    /// The same pet at another age: the caller's clock keeps the age, no
    /// action changes it.
    pub fn with_age(&self, age: u32) -> (r: Self)
        ensures
            r@ == (PetModel { age: age as nat, ..self@ }),
    {
        Tamagotchi {
            name: self.name.clone(),
            gender: self.gender,
            age,
            weight: self.weight,
            form: self.form,
            status: self.status,
        }
    }

    pub fn name(&self) -> (r: &String)
        ensures
            r@ == self@.name,
    {
        &self.name
    }

    pub fn gender(&self) -> (r: Gender)
        ensures
            r == self@.gender,
    {
        self.gender
    }

    pub fn age(&self) -> (r: u32)
        ensures
            r == self@.age,
    {
        self.age
    }

    /// The weight in tenths of a unit.
    pub fn weight(&self) -> (r: i64)
        ensures
            r == self@.weight,
    {
        self.weight
    }

    pub fn form(&self) -> (r: Form)
        ensures
            r == self@.form,
    {
        self.form
    }

    pub fn status(&self) -> (r: Status)
        ensures
            r == self@.status,
    {
        self.status
    }

    /// The level of care the pet receives, worked out from its present
    /// condition.
    pub fn care_level(&self) -> (r: CareLevel)
        ensures
            r == self@.status.care(),
    {
        self.status.care_level()
    }
}

/// A meal adds exactly the meal's gain to the weight and moves hunger one
/// level up, or leaves it at the top; nothing else changes.
pub proof fn lemma_meal(pet: PetModel)
    ensures
        pet.fed().weight == pet.weight + 5,
        pet.fed().status.hunger.level() == step_up(pet.status.hunger.level()),
        pet.fed() == (PetModel {
            weight: pet.fed().weight,
            status: Status { hunger: pet.fed().status.hunger, ..pet.status },
            ..pet
        }),
{
}

/// A game takes exactly the game's loss off the weight and moves the mood
/// one level up, or leaves it at the top; nothing else changes.
pub proof fn lemma_game(pet: PetModel)
    ensures
        pet.played().weight == pet.weight - 2,
        pet.played().status.mood.level() == step_up(pet.status.mood.level()),
        pet.played() == (PetModel {
            weight: pet.played().weight,
            status: Status { mood: pet.played().status.mood, ..pet.status },
            ..pet
        }),
{
}

/// No single event takes a pet back to an earlier stage, and only the
/// passing of time changes the form at all. Name, gender and age stay.
pub proof fn lemma_event_keeps_stage(pet: PetModel, event: Event)
    ensures
        pet.after(event).form.stage() >= pet.form.stage(),
        !(event is Advance) ==> pet.after(event).form == pet.form,
        pet.after(event).name == pet.name,
        pet.after(event).gender == pet.gender,
        pet.after(event).age == pet.age,
{
}

/// Forms only move forward: after any run of actions and stretches of time
/// the pet is at the stage it started from or at a later one.
pub proof fn lemma_form_never_regresses(pet: PetModel, events: Seq<Event>)
    ensures
        pet.after_all(events).form.stage() >= pet.form.stage(),
    decreases events.len(),
{
    if events.len() > 0 {
        lemma_form_never_regresses(pet, events.drop_last());
        lemma_event_keeps_stage(pet.after_all(events.drop_last()), events.last());
    }
}

} // verus!
