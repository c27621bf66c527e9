//! A request-coalescing cache in front of an expensive, idempotent lookup.
//!
//! Concurrent callers that ask for the same key share one upstream fetch, and
//! a key whose fetch has succeeded is served from the cache from then on.
//! The crate holds the decisions only: every function here is a short,
//! non-blocking step that a driver runs under its one coordination lock,
//! while the fetch itself and the suspension of waiters stay with the driver.
//!
//! - [`cache`]: the shared state and its two steps, arrival and settlement.
//! - [`trace`] and [`laws`]: runs of those steps under any interleaving, and
//!   what is proved of them: single flight, independence of keys, cache
//!   reuse, recovery after a failed fetch, and that no caller is left waiting.
//! - [`rpc`] and [`quantity`]: the requests of the upstream fetcher and the
//!   reading of its answers.
//! - [`json`]: what is taken on trust from `serde_json`.
//! - [`error`]: the typed failures.

pub mod cache;
pub mod error;
pub mod json;
pub mod laws;
pub mod quantity;
pub mod rpc;
pub mod trace;
