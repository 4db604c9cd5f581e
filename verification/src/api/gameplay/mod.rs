//! Gameplay: games, challenges, the Board and Bot APIs, bulk pairings.

pub mod board;
pub mod bot;
pub mod bulk_pairing;
pub mod challenges;
pub mod games;
