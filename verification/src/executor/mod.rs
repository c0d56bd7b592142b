//! The executor: its configuration and the rules of its SQL service.

pub mod config;
pub mod sql_service;
