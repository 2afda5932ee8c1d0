//! A span-aware console renderer for structured logs.
//!
//! Spans form a tree; each event is printed under the chain of span headers
//! that leads to it, and a header is printed again only when the reader can no
//! longer see it at the bottom of the log.
pub mod decimal;
pub mod http;
pub mod layer;
pub mod laws;
pub mod outside;
pub mod record;
pub mod render;
pub mod threads;
