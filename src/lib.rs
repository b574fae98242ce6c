//! Client-side protocol engine for a tagged command/response API spoken over a
//! duplex text connection: the envelope codec, the tag registry with its
//! per-request response channels, and the session steps of the client.

pub mod text;
pub mod json;
pub mod wire;
pub mod command;
pub mod error_code;
pub mod response;
pub mod channel;
pub mod client;
pub mod config;
pub mod builder;
