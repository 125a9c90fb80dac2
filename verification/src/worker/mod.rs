//! Connection workers.
pub mod tcp;
pub mod udp;
