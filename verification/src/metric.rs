//! Distilled metric values: the closed set of supported variants together
//! with the uniform `count` / `sum` accessors.

use vstd::prelude::*;
use crate::label::{LabelModel, MetricLabel};

verus! {

/// The IEEE 754 binary64 bit pattern of a sample value. Sample values are
/// carried through distillation untouched, so holding the bits keeps the
/// representation exact; the bit pattern `0` stands for `+0.0`.
#[derive(Debug, Clone, Copy, PartialEq, Eq, Structural)]
pub struct FloatBits {
    pub bits: u64,
}

impl DeepView for FloatBits {
    type V = u64;

    open spec fn deep_view(&self) -> u64 {
        self.bits
    }
}

/// The kind a raw metric family declares for all its samples.
#[derive(Debug, Clone, Copy, PartialEq, Eq, Structural)]
pub enum MetricKind {
    Counter,
    Gauge,
    Summary,
    Untyped,
    Histogram,
}

/// A single distilled metric instance, tagged by kind. Kinds outside
/// {Counter, Gauge, Histogram} degrade to [`Metric::Unsupported`], which
/// records the declared kind so callers can report it.
#[derive(Debug, PartialEq)]
pub enum Metric {
    Counter(Vec<MetricLabel>, Option<FloatBits>),
    Gauge(Vec<MetricLabel>, Option<FloatBits>),
    Histogram {
        labels: Vec<MetricLabel>,
        sample_count: Option<u64>,
        sample_sum: Option<FloatBits>,
    },
    Unsupported(MetricKind),
}

/// Mathematical model of a [`Metric`]: labels as sequences and sample
/// values as plain bit patterns.
pub enum MetricModel {
    Counter { labels: Seq<LabelModel>, value: Option<u64> },
    Gauge { labels: Seq<LabelModel>, value: Option<u64> },
    Histogram { labels: Seq<LabelModel>, sample_count: Option<u64>, sample_sum: Option<u64> },
    Unsupported { kind: MetricKind },
}

impl DeepView for Metric {
    type V = MetricModel;

    open spec fn deep_view(&self) -> MetricModel {
        match self {
            Metric::Counter(labels, value) => MetricModel::Counter {
                labels: labels.deep_view(),
                value: value.deep_view(),
            },
            Metric::Gauge(labels, value) => MetricModel::Gauge {
                labels: labels.deep_view(),
                value: value.deep_view(),
            },
            Metric::Histogram { labels, sample_count, sample_sum } => MetricModel::Histogram {
                labels: labels.deep_view(),
                sample_count: *sample_count,
                sample_sum: sample_sum.deep_view(),
            },
            Metric::Unsupported(kind) => MetricModel::Unsupported { kind: *kind },
        }
    }
}

/// Number of underlying observations a metric stands for: one for Counter,
/// Gauge and Unsupported; the recorded sample count (or `0` when it was
/// never set) for Histogram.
pub open spec fn spec_count(m: MetricModel) -> u64 {
    match m {
        MetricModel::Counter { .. } => 1,
        MetricModel::Gauge { .. } => 1,
        MetricModel::Histogram { sample_count, .. } => match sample_count {
            Some(c) => c,
            None => 0,
        },
        MetricModel::Unsupported { .. } => 1,
    }
}

/// Total value a metric stands for, as a binary64 bit pattern: the stored
/// value (Counter, Gauge) or sample sum (Histogram), with an unset field
/// and the Unsupported variant both yielding the bits of `+0.0`.
pub open spec fn spec_sum(m: MetricModel) -> u64 {
    match m {
        MetricModel::Counter { value, .. } => match value {
            Some(b) => b,
            None => 0,
        },
        MetricModel::Gauge { value, .. } => match value {
            Some(b) => b,
            None => 0,
        },
        MetricModel::Histogram { sample_sum, .. } => match sample_sum {
            Some(b) => b,
            None => 0,
        },
        MetricModel::Unsupported { .. } => 0,
    }
}

impl Metric {
    /// Number of underlying observations represented by this metric
    /// instance.
    pub fn count(&self) -> (c: u64)
        ensures
            c == spec_count(self.deep_view()),
    {
        match self {
            Metric::Counter(_, _) => 1,
            Metric::Gauge(_, _) => 1,
            Metric::Histogram { sample_count, .. } => match sample_count {
                Some(c) => *c,
                None => 0,
            },
            Metric::Unsupported(_) => 1,
        }
    }

    /// Total value represented by this metric instance, as the bit pattern
    /// of an IEEE 754 binary64 number; an unset field yields the bits of
    /// `+0.0`.
    pub fn sum(&self) -> (s: FloatBits)
        ensures
            s.bits == spec_sum(self.deep_view()),
    {
        match self {
            Metric::Counter(_, value) => match value {
                Some(b) => *b,
                None => FloatBits { bits: 0 },
            },
            Metric::Gauge(_, value) => match value {
                Some(b) => *b,
                None => FloatBits { bits: 0 },
            },
            Metric::Histogram { sample_sum, .. } => match sample_sum {
                Some(b) => *b,
                None => FloatBits { bits: 0 },
            },
            Metric::Unsupported(_) => FloatBits { bits: 0 },
        }
    }
}

/// One named metric family together with all its distilled instances.
#[derive(Debug, PartialEq)]
pub struct MetricFamily {
    pub name: String,
    pub metrics: Vec<Metric>,
}

/// Mathematical model of a [`MetricFamily`].
pub struct FamilyModel {
    pub name: Seq<char>,
    pub metrics: Seq<MetricModel>,
}

impl DeepView for MetricFamily {
    type V = FamilyModel;

    open spec fn deep_view(&self) -> FamilyModel {
        FamilyModel { name: self.name@, metrics: self.metrics.deep_view() }
    }
}

} // verus!
