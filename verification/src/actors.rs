//! Concrete actor kinds.

pub mod player;
pub mod soldier;
