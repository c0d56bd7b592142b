//! The authority service: configuration, the rules its stores and gRPC
//! services apply to rows and requests.

pub mod catalog;
pub mod config;
pub mod iam_store;
pub mod services;
