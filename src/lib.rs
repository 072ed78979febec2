//! Typed configuration values for a supervised service: listening
//! addresses, event-stream settings, and the environment fallback policy.

pub mod net;
pub mod metadata;
pub mod error;
pub mod decimal;
pub mod event_stream;
pub mod env_config;
pub mod listen;
pub mod user;
