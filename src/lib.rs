//! Lifecycle management for realtime audio streams: configuration checks,
//! spawning a stream against a backend, live reconfiguration and teardown.
pub mod config;
pub mod directory;
pub mod error;
pub mod run;
pub mod stream;
pub mod validate;
