//! Harmony: provider-agnostic music library types and the decisions of the
//! Harmony client and server, with their contracts.

pub mod calendar;
pub mod client;
pub mod clock;
pub mod error;
pub mod ids;
pub mod routes;
pub mod spotify;
pub mod text;
pub mod types;
