//! Tournaments: arenas, swiss tournaments and simuls.

pub mod arena;
pub mod swiss;
pub mod simuls;
