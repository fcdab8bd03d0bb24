//! Risk assessment engine for smart-contract requests.
//!
//! The crate provides a bounded object pool built on a verified free-list
//! stack, a TTL-bounded result cache, a scoring unit over weighted
//! findings with an exactly-equivalent lane-chunked fast path, pattern-based
//! vulnerability scanning rules, and the orchestrator that composes them.
//! Scores are carried in thousandths of a point on the 0..=100 scale and
//! confidences in basis points, so every numeric claim is exact.

pub mod cache;
pub mod engine;
pub mod models;
pub mod pool;
pub mod rules;
pub mod scanner;
pub mod scoring;
pub mod stats;
pub mod strutil;
