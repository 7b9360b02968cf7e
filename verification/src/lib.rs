//! A small tool-invocation server core: a registry of named tools, the
//! validation of call payloads, the two tool handlers, the result envelope,
//! and the state machine behind the single-completion start operation.

pub mod decimal;
pub mod envelope;
pub mod names;
pub mod payload;
pub mod schema;
pub mod router;
pub mod service;
pub mod lifecycle;
pub mod wire;
