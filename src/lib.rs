//! DNS-over-HTTPS client connections: a builder that stages the TLS trust
//! configuration, and an immutable connection that gives each connection
//! attempt its own copy of that configuration, the server and the name its
//! certificate must carry.

pub mod address;
pub mod connection;
pub mod error;
pub mod laws;
pub mod runtime;
pub mod tls_config;
