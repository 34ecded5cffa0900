//! The commands of the terminal front end.

pub mod diff;
pub mod display;
