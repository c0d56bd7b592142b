//! Identity and access management: subjects, resources, policies, the policy
//! engine and the rules that apply its decisions to catalogs and query plans.

pub mod catalog_filter;
pub mod engine;
pub mod laws;
pub mod optimizer;
pub mod types;

pub use engine::{AllowAllEngine, IamEngine, SnapshotIamEngine};
pub use types::{AccessDecision, ColumnMask, Effect, MaskKind, Policy, ResourceId, Subject};
