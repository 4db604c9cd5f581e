//! Databases: the opening explorer, the endgame tablebase and cloud analysis.

pub mod opening_explorer;
pub mod analysis;
pub mod tablebase;
