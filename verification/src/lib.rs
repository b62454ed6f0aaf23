//! Cross-platform process-launch resolver.
//!
//! Given a logical target identifier and an opaque argument payload, the
//! library determines the correct executable for the current operating
//! system, prepares its invocation (arguments and environment), and hands
//! the finished plan to a host layer that performs the actual spawn.

pub mod args;
pub mod codec;
pub mod errors;
pub mod host;
pub mod invoke;
pub mod numbers;
pub mod paths;
pub mod resolve;
pub mod strategy;
