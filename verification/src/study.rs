//! The study screens.

pub mod flashcards;
pub mod learn;
