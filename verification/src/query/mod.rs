//! The query service: configuration, the catalog view each user gets, the
//! remote scan plan node and the HTTP API's rules.

pub mod catalog;
pub mod config;
pub mod http;
pub mod remote_scan;
pub mod session;
