//! Verified core of the Skailar API client.
pub mod text;
pub mod streaming;
pub mod json;
pub mod error;
pub mod retry;
pub mod client;
pub mod auth;
pub mod models;
pub mod resources;
pub mod types;
