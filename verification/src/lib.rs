//! Core logic for a family of read-only reporting services over time-series
//! health statistics (hospitalization counts, PCR tests, ICU occupancy),
//! keyed by a partial calendar date and a geographic scope.
//!
//! The library covers the recurring, invariant-bearing parts of every query
//! handler: resolving a possibly-partial date into a validated query key,
//! deriving a seven-day window of concrete dates, folding streamed rows
//! through a fallible decoder, aggregating per-day results into a weekly
//! summary, and translating the closed set of failure kinds into RPC-style
//! outcomes. Connection pooling, TLS, and the RPC transport stay outside;
//! they hand the library plain values and take plain values back.

pub mod aggregate;
pub mod date;
pub mod err;
pub mod executor;
pub mod pipeline;
pub mod render;
pub mod resolve;
pub mod status;
pub mod window;
