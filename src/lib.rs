//! Request resolution for a redirecting URL shortener.
//!
//! The library decides, for each parsed HTTP request and the outcome of a
//! key-value store lookup, which response to send and which telemetry record
//! to append. Running the HTTP server and talking to the store is left to the
//! caller.

pub mod laws;
pub mod metadata;
pub mod resolver;
pub mod response;
pub mod telemetry;
