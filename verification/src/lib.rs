//! Verified core of the elan federated query system: IAM policy evaluation,
//! catalog and configuration models, SQL dispatch planning, audit events and
//! the terminal client's state machine.

pub mod assoc;
pub mod audit;
pub mod text;
pub mod ids;
pub mod json;
pub mod iam;
pub mod common;
pub mod central;
pub mod coordinator;
pub mod executor;
pub mod query;
pub mod schema;
pub mod settings;
pub mod tui;
