//! The decision logic of a single-upstream reverse proxy that opens an
//! upstream to browser clients on other origins.
//!
//! The crate holds no sockets and awaits nothing. A server hands it the plain
//! facts of an inbound request, performs the step it is told to take, and
//! hands back what the upstream did.

pub mod config;
pub mod headers;
pub mod proxy;
pub mod target;
