//! Gamplo SDK core.
//!
//! The typed, transport-free half of a client for the Gamplo game-backend
//! service: it builds the requests of every operation, decodes the JSON the
//! service answers with into typed records, and classifies failures. Sending
//! the requests is left to the caller.

pub mod achievement;
pub mod client;
pub mod decode;
pub mod error;
pub mod json;
pub mod moderation;
pub mod player;
pub mod request;
pub mod response;
pub mod save;
pub mod session;
pub mod time;
pub mod util;
pub mod wire;

pub use client::Gamplo;
pub use moderation::ModerationResult;
pub use request::{evaluate_url_path, GAMPLO_URL};
pub use session::get_token;
