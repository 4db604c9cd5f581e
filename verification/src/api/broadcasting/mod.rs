//! Broadcasting: relayed tournaments and Lichess TV.

pub mod broadcasts;
pub mod tv;
