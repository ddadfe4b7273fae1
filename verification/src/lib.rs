//! A small todo service core: a typed data model, pagination arithmetic,
//! an in-memory storage layer with full functional contracts, request
//! handlers that shape response envelopes, and configuration loading.
//!
//! The storage layer owns the authoritative record state; handlers are
//! stateless mappings from parsed input to a response envelope. I/O
//! (HTTP and the real database) lives outside this crate and hands the
//! library plain values.

pub mod config;
pub mod handler;
pub mod model;
pub mod numeric;
pub mod response;
pub mod store;
