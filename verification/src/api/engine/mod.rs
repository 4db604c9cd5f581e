//! External analysis engines.

pub mod external_engine;
