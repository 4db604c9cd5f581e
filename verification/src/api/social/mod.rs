//! Social: teams, relations and messaging.

pub mod teams;
pub mod messaging;
pub mod relations;
