//! A verified planner for one day of classes.
//!
//! The library builds the list of class slots of a day, cuts a run of
//! consecutive classes out of it, derives the wake-up and commute times from
//! the first and last class of the run, and renders the result as text.
//! Times of day are shifted and printed by `chrono`, the random draws come
//! from `rand`; everything around those calls is proved by Verus.

pub mod text;
pub mod plan;
pub mod render;
pub mod slots;
pub mod time;
pub mod week;
