//! Training: puzzles and studies.

pub mod puzzles;
pub mod studies;
