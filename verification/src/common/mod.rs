//! Types shared by all elan services: errors, catalog entries, HTTP API
//! shapes and the messages exchanged over gRPC.

pub mod api;
pub mod catalog;
pub mod error;
pub mod proto;

pub use error::ElanError;
