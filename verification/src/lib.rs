//! A colour-swatch widget core: a resolver that turns raw field text into a
//! display colour, a random RGB colour generator, and the page state machine
//! that reacts to commit and randomize events.

pub mod colour;
pub mod page;
pub mod rgb;
