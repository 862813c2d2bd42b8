//! Learning a set by recall.

pub mod world;
