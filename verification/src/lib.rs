//! Reporting core for message-queue throughput records: the token authority
//! and request gate, the parameterised query builder, the cache-aside
//! protocol for reference lists, and the response shapes.

pub mod api;
pub mod app_state;
pub mod auth;
pub mod cache;
pub mod dto;
pub mod gate;
pub mod model;
pub mod query;
