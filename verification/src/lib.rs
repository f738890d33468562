//! Queue-telemetry monitoring core: extraction of canonical metric readings
//! from raw per-queue documents, threshold-trigger matching, and a
//! time-windowed deduplication gate for outgoing notifications.

pub mod api;
pub mod config;
pub mod json;
pub mod monitor;
pub mod rmq;
pub mod slack;
pub mod utils;
