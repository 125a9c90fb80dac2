//! A tiny HTTP server runtime: virtual hosts with prefix routing, listener
//! bookkeeping, TLS configuration and connection dispatch decisions.

pub mod config;
pub mod errors;
pub mod host;
pub mod listener;
pub mod net;
pub mod laws;
pub mod properties;
pub mod rt;
pub mod runtime;
pub mod text;
pub mod tls;
pub mod worker;

pub use crate::rt::Vetis;
