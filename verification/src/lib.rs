//! Service startup building blocks around a request-tracing middleware.
//!
//! The heart of the crate is the span lifecycle of one traced request:
//! a span is opened when a request arrives, annotated with protocol
//! metadata and the outcome of the inner handler, and closed exactly once
//! at the right moment — for streaming responses only after the body and
//! its trailers have been fully delivered.

pub mod ambient;
pub mod body;
pub mod config;
pub mod ids;
pub mod jwt;
pub mod sink;
pub mod span;
pub mod trace;
pub mod web;
