//! Distillation of raw metric snapshots into a simplified, comparable
//! in-memory representation.
//!
//! The library maps an ordered sequence of raw metric families (name,
//! declared kind, samples with labels and optional numeric fields) into a
//! closed set of metric variants with uniform `count` / `sum` accessors.
//! Numeric sample values are carried as IEEE 754 binary64 bit patterns
//! ([`FloatBits`]), which keeps the set-versus-unset distinction exact and
//! lets every transformation be stated and proved over plain values.

pub mod distill;
pub mod label;
pub mod metric;
pub mod raw;

pub use distill::{distill_metric_state, unsupported_kinds};
pub use label::MetricLabel;
pub use metric::{FloatBits, Metric, MetricFamily, MetricKind};
pub use raw::{RawMetric, RawMetricFamily};
