//! The coordinator: its configuration, what it registers with elan-central
//! and how it lays out dataset files in the shared object store.

pub mod config;
pub mod registration;
pub mod runtime;
pub mod upload;
