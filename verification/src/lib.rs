//! A request-handling shim for serverless-style HTTP functions.
//!
//! The crate decodes incoming request bodies under multiple content types
//! and converts every failure — malformed input, downstream errors, handler
//! faults — into a single, uniform, client-consumable error envelope.

pub mod body;
pub mod config;
pub mod envelope;
pub mod laws;
pub mod locator;
pub mod pipeline;
pub mod text;

