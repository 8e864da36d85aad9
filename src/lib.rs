//! A typed client core for the Raindrop.io bookmarking REST API.
//!
//! The library builds every request the client sends, classifies every
//! response into a decoded value or a typed error, and maps the service's
//! JSON wire format to and from the domain types. Sending requests and
//! turning JSON text into a [`json::Json`] tree is left to the caller.

pub mod error;
pub mod json;
pub mod wire;
pub mod user;
pub mod collection;
pub mod bookmark;
pub mod highlight;
pub mod search;
pub mod stats;
pub mod transfer;
pub mod text;
pub mod client;
pub mod update;
pub mod catalog;
pub mod laws;
