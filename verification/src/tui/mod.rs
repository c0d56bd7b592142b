//! The terminal client: its state, how keys drive it, and what it shows.

pub mod app;
pub mod client;
pub mod keys;
pub mod view;
