//! Five-level scales and the attributes graded on them.

use vstd::prelude::*;

verus! {

/// The level one step above `level`, stopping at the top level 4.
pub open spec fn step_up(level: int) -> int {
    if level < 4 {
        level + 1
    } else {
        4
    }
}

/// The level one step below `level`, stopping at the bottom level 0.
pub open spec fn step_down(level: int) -> int {
    if level > 0 {
        level - 1
    } else {
        0
    }
}

/// A closed scale of five levels, numbered 0 (worst) to 4 (best).
pub trait Graded: Sized {
    /// The number of this level.
    spec fn level(&self) -> int;

    /// The value at a level from 0 to 4.
    spec fn at(level: int) -> Self;

    /// `level` and `at` are inverse to each other on 0..=4.
    proof fn lemma_scale(v: Self, level: int)
        ensures
            0 <= v.level() <= 4,
            Self::at(v.level()) == v,
            0 <= level <= 4 ==> Self::at(level).level() == level,
    ;
}

/// The value one level better than `a`, or `a` itself at the top.
pub open spec fn raised<A: Graded>(a: A) -> A {
    A::at(step_up(a.level()))
}

/// The value one level worse than `a`, or `a` itself at the bottom.
pub open spec fn lowered<A: Graded>(a: A) -> A {
    A::at(step_down(a.level()))
}

/// A point system for the number of hearts in a heart gauge.
pub trait Hearts: Graded {
    fn hearts(&self) -> (n: u32)
        ensures
            n == self.level(),
    ;
}

/// Steps a condition one level up or down its scale.
pub trait BetterOrWorse: Graded {
    fn better(&self) -> (r: Self)
        ensures
            r == raised(*self),
    ;

    fn worse(&self) -> (r: Self)
        ensures
            r == lowered(*self),
    ;
}

/// A step moves the level by exactly one, except at the end it runs into.
pub proof fn lemma_step_levels<A: Graded>(a: A)
    ensures
        raised(a).level() == step_up(a.level()),
        lowered(a).level() == step_down(a.level()),
        0 <= a.level() <= 4,
{
    A::lemma_scale(a, step_up(a.level()));
    A::lemma_scale(a, step_down(a.level()));
}

/// Below the top level, stepping worse undoes stepping better.
pub proof fn lemma_worse_undoes_better<A: Graded>(a: A)
    requires
        a.level() < 4,
    ensures
        lowered(raised(a)) == a,
{
    lemma_step_levels(a);
    A::lemma_scale(a, 0);
}

/// Above the bottom level, stepping better undoes stepping worse.
pub proof fn lemma_better_undoes_worse<A: Graded>(a: A)
    requires
        a.level() > 0,
    ensures
        raised(lowered(a)) == a,
{
    lemma_step_levels(a);
    A::lemma_scale(a, 0);
}

/// Steps saturate: the top level is a fixed point of stepping better, the
/// bottom level of stepping worse, and stepping towards an end a second time
/// changes nothing once the end is reached.
pub proof fn lemma_steps_saturate<A: Graded>(a: A)
    ensures
        a.level() == 4 ==> raised(a) == a,
        a.level() == 0 ==> lowered(a) == a,
        raised(a).level() == 4 ==> raised(raised(a)) == raised(a),
        lowered(a).level() == 0 ==> lowered(lowered(a)) == lowered(a),
        raised(raised(A::at(4))) == raised(A::at(4)),
        lowered(lowered(A::at(0))) == lowered(A::at(0)),
{
    lemma_step_levels(a);
    A::lemma_scale(a, 0);
    A::lemma_scale(raised(a), 4);
    A::lemma_scale(lowered(a), 0);
    A::lemma_scale(A::at(4), 4);
    A::lemma_scale(A::at(0), 0);
    lemma_step_levels(A::at(4));
    lemma_step_levels(A::at(0));
    A::lemma_scale(raised(A::at(4)), 0);
    A::lemma_scale(lowered(A::at(0)), 0);
}

/// The hunger level of a pet.
#[derive(Clone, Copy, Debug, PartialEq, Eq, Structural)]
pub enum Hunger {
    Starving,
    Famished,
    Snackish,
    Peckish,
    Full,
}

impl Graded for Hunger {
    open spec fn level(&self) -> int {
        match self {
            Hunger::Starving => 0,
            Hunger::Famished => 1,
            Hunger::Snackish => 2,
            Hunger::Peckish => 3,
            Hunger::Full => 4,
        }
    }

    open spec fn at(level: int) -> Self {
        if level <= 0 {
            Hunger::Starving
        } else if level == 1 {
            Hunger::Famished
        } else if level == 2 {
            Hunger::Snackish
        } else if level == 3 {
            Hunger::Peckish
        } else {
            Hunger::Full
        }
    }

    proof fn lemma_scale(v: Self, level: int) {
    }
}

impl Default for Hunger {
    fn default() -> (r: Self)
        ensures
            r == Hunger::Starving,
    {
        Hunger::Starving
    }
}

impl Hearts for Hunger {
    fn hearts(&self) -> (n: u32) {
        match self {
            Hunger::Starving => 0,
            Hunger::Famished => 1,
            Hunger::Snackish => 2,
            Hunger::Peckish => 3,
            Hunger::Full => 4,
        }
    }
}

impl BetterOrWorse for Hunger {
    fn better(&self) -> (r: Self) {
        match self {
            Hunger::Starving => Hunger::Famished,
            Hunger::Famished => Hunger::Snackish,
            Hunger::Snackish => Hunger::Peckish,
            Hunger::Peckish => Hunger::Full,
            Hunger::Full => Hunger::Full,
        }
    }

    fn worse(&self) -> (r: Self) {
        match self {
            Hunger::Starving => Hunger::Starving,
            Hunger::Famished => Hunger::Starving,
            Hunger::Snackish => Hunger::Famished,
            Hunger::Peckish => Hunger::Snackish,
            Hunger::Full => Hunger::Peckish,
        }
    }
}

/// The mood of a pet.
#[derive(Clone, Copy, Debug, PartialEq, Eq, Structural)]
pub enum Mood {
    Miserable,
    Pessemistic,
    Indifferent,
    Optimistic,
    Cheerful,
}

impl Graded for Mood {
    open spec fn level(&self) -> int {
        match self {
            Mood::Miserable => 0,
            Mood::Pessemistic => 1,
            Mood::Indifferent => 2,
            Mood::Optimistic => 3,
            Mood::Cheerful => 4,
        }
    }

    open spec fn at(level: int) -> Self {
        if level <= 0 {
            Mood::Miserable
        } else if level == 1 {
            Mood::Pessemistic
        } else if level == 2 {
            Mood::Indifferent
        } else if level == 3 {
            Mood::Optimistic
        } else {
            Mood::Cheerful
        }
    }

    proof fn lemma_scale(v: Self, level: int) {
    }
}

impl Default for Mood {
    fn default() -> (r: Self)
        ensures
            r == Mood::Miserable,
    {
        Mood::Miserable
    }
}

impl Hearts for Mood {
    fn hearts(&self) -> (n: u32) {
        match self {
            Mood::Miserable => 0,
            Mood::Pessemistic => 1,
            Mood::Indifferent => 2,
            Mood::Optimistic => 3,
            Mood::Cheerful => 4,
        }
    }
}

impl BetterOrWorse for Mood {
    fn better(&self) -> (r: Self) {
        match self {
            Mood::Miserable => Mood::Pessemistic,
            Mood::Pessemistic => Mood::Indifferent,
            Mood::Indifferent => Mood::Optimistic,
            Mood::Optimistic => Mood::Cheerful,
            Mood::Cheerful => Mood::Cheerful,
        }
    }

    fn worse(&self) -> (r: Self) {
        match self {
            Mood::Miserable => Mood::Miserable,
            Mood::Pessemistic => Mood::Miserable,
            Mood::Indifferent => Mood::Pessemistic,
            Mood::Optimistic => Mood::Indifferent,
            Mood::Cheerful => Mood::Optimistic,
        }
    }
}

/// A pet's health condition.
#[derive(Clone, Copy, Debug, PartialEq, Eq, Structural)]
pub enum Health {
    Neglected,
    Weak,
    Normal,
    Strong,
    Eggcellent,
}

impl Graded for Health {
    open spec fn level(&self) -> int {
        match self {
            Health::Neglected => 0,
            Health::Weak => 1,
            Health::Normal => 2,
            Health::Strong => 3,
            Health::Eggcellent => 4,
        }
    }

    open spec fn at(level: int) -> Self {
        if level <= 0 {
            Health::Neglected
        } else if level == 1 {
            Health::Weak
        } else if level == 2 {
            Health::Normal
        } else if level == 3 {
            Health::Strong
        } else {
            Health::Eggcellent
        }
    }

    proof fn lemma_scale(v: Self, level: int) {
    }
}

impl Default for Health {
    fn default() -> (r: Self)
        ensures
            r == Health::Neglected,
    {
        Health::Neglected
    }
}

impl Hearts for Health {
    fn hearts(&self) -> (n: u32) {
        match self {
            Health::Neglected => 0,
            Health::Weak => 1,
            Health::Normal => 2,
            Health::Strong => 3,
            Health::Eggcellent => 4,
        }
    }
}

impl BetterOrWorse for Health {
    fn better(&self) -> (r: Self) {
        match self {
            Health::Neglected => Health::Weak,
            Health::Weak => Health::Normal,
            Health::Normal => Health::Strong,
            Health::Strong => Health::Eggcellent,
            Health::Eggcellent => Health::Eggcellent,
        }
    }

    fn worse(&self) -> (r: Self) {
        match self {
            Health::Neglected => Health::Neglected,
            Health::Weak => Health::Neglected,
            Health::Normal => Health::Weak,
            Health::Strong => Health::Normal,
            Health::Eggcellent => Health::Strong,
        }
    }
}

/// The level of discipline a pet displays.
#[derive(Clone, Copy, Debug, PartialEq, Eq, Structural)]
pub enum Discipline {
    Bratty,
    Spoiled,
    Average,
    Goody2Shoes,
    ModelAlien,
}

impl Graded for Discipline {
    open spec fn level(&self) -> int {
        match self {
            Discipline::Bratty => 0,
            Discipline::Spoiled => 1,
            Discipline::Average => 2,
            Discipline::Goody2Shoes => 3,
            Discipline::ModelAlien => 4,
        }
    }

    open spec fn at(level: int) -> Self {
        if level <= 0 {
            Discipline::Bratty
        } else if level == 1 {
            Discipline::Spoiled
        } else if level == 2 {
            Discipline::Average
        } else if level == 3 {
            Discipline::Goody2Shoes
        } else {
            Discipline::ModelAlien
        }
    }

    proof fn lemma_scale(v: Self, level: int) {
    }
}

impl Default for Discipline {
    fn default() -> (r: Self)
        ensures
            r == Discipline::ModelAlien,
    {
        Discipline::ModelAlien
    }
}

impl Discipline {
    /// The reading of the discipline meter: the number of the level.
    pub fn meter(&self) -> (n: u32)
        ensures
            n == self.level(),
    {
        match self {
            Discipline::Bratty => 0,
            Discipline::Spoiled => 1,
            Discipline::Average => 2,
            Discipline::Goody2Shoes => 3,
            Discipline::ModelAlien => 4,
        }
    }
}

impl BetterOrWorse for Discipline {
    fn better(&self) -> (r: Self) {
        match self {
            Discipline::Bratty => Discipline::Spoiled,
            Discipline::Spoiled => Discipline::Average,
            Discipline::Average => Discipline::Goody2Shoes,
            Discipline::Goody2Shoes => Discipline::ModelAlien,
            Discipline::ModelAlien => Discipline::ModelAlien,
        }
    }

    fn worse(&self) -> (r: Self) {
        match self {
            Discipline::Bratty => Discipline::Bratty,
            Discipline::Spoiled => Discipline::Bratty,
            Discipline::Average => Discipline::Spoiled,
            Discipline::Goody2Shoes => Discipline::Average,
            Discipline::ModelAlien => Discipline::Goody2Shoes,
        }
    }
}

} // verus!
