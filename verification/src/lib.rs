//! A manifest-driven file mirroring library.
//!
//! The crate models a sync engine that reads a manifest of remote assets,
//! detects which records changed since the previous run, and schedules
//! bounded-concurrency downloads with per-file retry and failure accounting.

pub mod assets;
pub mod clock;
pub mod config;
pub mod delta;
pub mod docs;
pub mod downloader;
pub mod reporting;
pub mod schema;
pub mod sync;
pub mod text;
