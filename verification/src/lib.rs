//! Request-gateway core for a federated content-sharing service.
//!
//! Two components make up the crate: a declarative route table that binds
//! each (path, method) pair to an authentication mode and a rate-limit
//! class, and an authentication interceptor that turns an `Authorization`
//! header and the outcome of an external credential lookup into either a
//! populated per-request identity context or a rejection.
//!
//! The surrounding web framework, the credential validator and the
//! rate-limit counters are external collaborators: this crate only decides,
//! it performs no I/O.

pub mod api_routes;
pub mod handlers;
pub mod interceptor;
pub mod table;
pub mod text;
