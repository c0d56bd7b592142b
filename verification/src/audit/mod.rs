//! Audit events: what happened, to whom, and where each event is sent.

pub mod event;
pub mod sink;
