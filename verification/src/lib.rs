//! Credential acquisition for a desktop media-tracking companion: the
//! decisions behind PIN linking, the loopback authorization-code exchange
//! and the durable credential document, with machine-checked contracts.

pub mod clock;
pub mod device;
pub mod document;
pub mod error;
pub mod exchange;
pub mod http;
pub mod json;
pub mod launch;
pub mod listener;
pub mod paths;
pub mod plex;
pub mod store;
pub mod text;
