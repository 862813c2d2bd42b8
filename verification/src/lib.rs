//! A flashcard study engine: the card model, the per-card progression through
//! the study modes, the working set of study items and the session that drives
//! them, together with the layout arithmetic a terminal front end needs.

pub mod chars;
pub mod flashcards;
pub mod input;
pub mod output;
mod random;
pub mod study;
pub mod vec2;
