//! Raw metric snapshots as handed in by a metrics-collection registry:
//! one record per family with its declared kind, and one record per sample
//! holding the labels and every optional kind-specific numeric field.

use vstd::prelude::*;
use crate::label::{LabelModel, MetricLabel};
use crate::metric::{FloatBits, MetricKind};

verus! {

/// One raw sample. Every kind-specific field is optional: `None` means the
/// source never set the field, which is distinct from a field set to zero.
/// Only the fields selected by the family's declared kind are read.
#[derive(Debug, PartialEq)]
pub struct RawMetric {
    pub labels: Vec<MetricLabel>,
    pub counter_value: Option<FloatBits>,
    pub gauge_value: Option<FloatBits>,
    pub histogram_count: Option<u64>,
    pub histogram_sum: Option<FloatBits>,
}

/// Mathematical model of a [`RawMetric`].
pub struct RawMetricModel {
    pub labels: Seq<LabelModel>,
    pub counter_value: Option<u64>,
    pub gauge_value: Option<u64>,
    pub histogram_count: Option<u64>,
    pub histogram_sum: Option<u64>,
}

impl DeepView for RawMetric {
    type V = RawMetricModel;

    open spec fn deep_view(&self) -> RawMetricModel {
        RawMetricModel {
            labels: self.labels.deep_view(),
            counter_value: self.counter_value.deep_view(),
            gauge_value: self.gauge_value.deep_view(),
            histogram_count: self.histogram_count,
            histogram_sum: self.histogram_sum.deep_view(),
        }
    }
}

/// One raw metric family: a name, the kind it declares for all its
/// samples, and the samples themselves in input order.
#[derive(Debug, PartialEq)]
pub struct RawMetricFamily {
    pub name: String,
    pub kind: MetricKind,
    pub metrics: Vec<RawMetric>,
}

/// Mathematical model of a [`RawMetricFamily`].
pub struct RawFamilyModel {
    pub name: Seq<char>,
    pub kind: MetricKind,
    pub metrics: Seq<RawMetricModel>,
}

impl DeepView for RawMetricFamily {
    type V = RawFamilyModel;

    open spec fn deep_view(&self) -> RawFamilyModel {
        RawFamilyModel {
            name: self.name@,
            kind: self.kind,
            metrics: self.metrics.deep_view(),
        }
    }
}

} // verus!
