//! A metrics-snapshot library: one operation that reports instantaneous
//! system resource usage (aggregate CPU percentage, used and total physical
//! memory in bytes) as a single immutable snapshot, or fails with
//! `MetricsUnavailable` when the operating-system counters cannot be read.

mod json;
mod metrics;
mod query;

pub use json::f32_decimal;
pub use json::json_of;
pub use json::json_parts;
pub use json::lemma_rendering_keys;
pub use json::spec_decimal;
pub use json::to_json;
pub use json::u64_to_decimal;
pub use metrics::MetricsError;
pub use metrics::SystemMetrics;
pub use metrics::build_metrics;
pub use metrics::f32_bits_finite;
pub use metrics::is_finite_bits;
pub use metrics::lemma_snapshot_healthy;
pub use query::get_system_metrics;
pub use query::get_system_metrics_json;
