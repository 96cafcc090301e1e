//! A small todo service, modelled and verified: a bounded connection pool with
//! a per-request extractor, an ordered todo store with create, windowed list,
//! partial update and delete, and the handlers that map outcomes of those
//! operations to HTTP status codes and bodies.

pub mod pool;
pub mod service;
pub mod status;
pub mod store;
pub mod todo;
