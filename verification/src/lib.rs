//! The condition of a virtual pet: graded attributes that actions step up and
//! down, a care level derived from them, and the life stages the pet grows
//! through.

pub mod behavior;
pub mod form;
pub mod pet;
pub mod scale;
pub mod status;

pub use behavior::Behavior;
pub use form::{AdultForm, Form, SpecialForm, TeenForm};
pub use pet::{Event, Gender, Tamagotchi};
pub use scale::{BetterOrWorse, Discipline, Health, Hearts, Hunger, Mood};
pub use status::{CareLevel, Light, Status};
