//! Verified core of an image hosting service: request decisions, key
//! generation, upload sessions and bucket layout.

pub mod text;
pub mod header;
pub mod reply;
pub mod config;
pub mod keys;
pub mod admin;
pub mod serve;
pub mod upload;
pub mod setup;
pub mod laws;
