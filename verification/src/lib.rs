//! A typed client for the Lichess API.

pub mod config;
pub mod http;
pub mod text;
pub mod secret;
pub mod model;
pub mod error;
pub mod client;
pub mod ndjson;
pub mod json_doc;
pub mod api;
