//! Authentication.

pub mod oauth;
