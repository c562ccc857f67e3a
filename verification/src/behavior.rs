//! How a pet behaves at a moment of decision.

use vstd::prelude::*;

verus! {

/// The behavior of a pet.
#[derive(Clone, Copy, Debug, PartialEq, Eq, Structural)]
pub enum Behavior {
    Good,
    Bad,
}

/// Draws one bit from `rand::random::<bool>()`, the thread-local generator of
/// the `rand` crate. Nothing is claimed of the bit: two draws may differ.
/// `rand` panics if the operating system cannot seed the generator on first
/// use; no argument of this function can rule that out.
#[verifier::external_body]
fn random_bit() -> (bit: bool) {
    rand::random()
}

impl Behavior {
    /// The behavior a drawn bit stands for: good for a set bit, bad for a
    /// cleared one.
    pub fn from_bit(bit: bool) -> (r: Behavior)
        ensures
            bit ==> r == Behavior::Good,
            !bit ==> r == Behavior::Bad,
    {
        if bit {
            Behavior::Good
        } else {
            Behavior::Bad
        }
    }

    /// Whether this is good behavior.
    pub fn is_good(&self) -> (r: bool)
        ensures
            r == (*self == Behavior::Good),
    {
        match self {
            Behavior::Good => true,
            Behavior::Bad => false,
        }
    }

    /// A behavior picked at random. Either outcome may come back, so callers
    /// that must be reproducible pass a chosen `Behavior` instead.
    pub fn reduce() -> Behavior {
        Behavior::from_bit(random_bit())
    }
}

} // verus!
