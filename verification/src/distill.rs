//! The distillation transform: mapping raw metric families into the
//! simplified representation, sample by sample, keyed by each family's
//! declared kind.

use vstd::prelude::*;
use crate::label::{LabelModel, MetricLabel};
use crate::metric::{
    FamilyModel, Metric, MetricFamily, MetricKind, MetricModel, spec_count, spec_sum,
};
use crate::raw::{RawFamilyModel, RawMetric, RawMetricFamily, RawMetricModel};

verus! {

/// How one raw sample distills, keyed by the family's declared kind: the
/// labels are carried over verbatim and the kind selects which optional
/// numeric fields survive; a kind outside {Counter, Gauge, Histogram}
/// yields `Unsupported` carrying that kind.
pub open spec fn spec_distill_metric(kind: MetricKind, m: RawMetricModel) -> MetricModel {
    match kind {
        MetricKind::Counter => MetricModel::Counter { labels: m.labels, value: m.counter_value },
        MetricKind::Gauge => MetricModel::Gauge { labels: m.labels, value: m.gauge_value },
        MetricKind::Histogram => MetricModel::Histogram {
            labels: m.labels,
            sample_count: m.histogram_count,
            sample_sum: m.histogram_sum,
        },
        MetricKind::Summary => MetricModel::Unsupported { kind },
        MetricKind::Untyped => MetricModel::Unsupported { kind },
    }
}

/// How one raw family distills: the name is kept and every sample is
/// mapped in order by [`spec_distill_metric`].
pub open spec fn spec_distill_family(f: RawFamilyModel) -> FamilyModel {
    FamilyModel {
        name: f.name,
        metrics: f.metrics.map_values(|m: RawMetricModel| spec_distill_metric(f.kind, m)),
    }
}

/// How a whole snapshot distills: one output family per input family, in
/// input order.
pub open spec fn spec_distill(fams: Seq<RawFamilyModel>) -> Seq<FamilyModel> {
    fams.map_values(|f: RawFamilyModel| spec_distill_family(f))
}

/// The labels a distilled metric carries. The `Unsupported` variant
/// records only the declared kind, so it carries none.
pub open spec fn metric_labels(m: MetricModel) -> Seq<LabelModel> {
    match m {
        MetricModel::Counter { labels, .. } => labels,
        MetricModel::Gauge { labels, .. } => labels,
        MetricModel::Histogram { labels, .. } => labels,
        MetricModel::Unsupported { .. } => Seq::empty(),
    }
}

/// Law: distillation is a bijective, order-preserving mapping at the
/// family level — it keeps the family count, keeps every family's name,
/// and maps that family's samples 1:1.
pub proof fn lemma_distill_preserves_families(fams: Seq<RawFamilyModel>)
    ensures
        spec_distill(fams).len() == fams.len(),
        forall|i: int|
            0 <= i < fams.len() ==> (#[trigger] spec_distill(fams)[i]).name == fams[i].name,
        forall|i: int|
            0 <= i < fams.len() ==> (#[trigger] spec_distill(fams)[i]).metrics.len()
                == fams[i].metrics.len(),
{
}

/// Law: for a family whose declared kind is Counter, Gauge or Histogram,
/// every distilled sample carries exactly the raw sample's label sequence:
/// same names, same values, same order, same length. A sample of any
/// other kind distills to `Unsupported`, which drops the labels, so the
/// law leaves those kinds out.
pub proof fn lemma_distill_preserves_labels(fams: Seq<RawFamilyModel>, i: int, j: int)
    requires
        0 <= i < fams.len(),
        0 <= j < fams[i].metrics.len(),
        fams[i].kind == MetricKind::Counter || fams[i].kind == MetricKind::Gauge || fams[i].kind
            == MetricKind::Histogram,
    ensures
        metric_labels(spec_distill(fams)[i].metrics[j]) == fams[i].metrics[j].labels,
{
}

/// Law: a sample of a Counter or Gauge family keeps its optional value
/// exactly — a value explicitly set to `v` distills to `Some(v)` and an
/// unset value to `None` — and an unset value makes the metric's sum the
/// bit pattern of `+0.0`.
pub proof fn lemma_distill_keeps_scalar_value(kind: MetricKind, m: RawMetricModel)
    requires
        kind == MetricKind::Counter || kind == MetricKind::Gauge,
    ensures
        kind == MetricKind::Counter ==> spec_distill_metric(kind, m) == (MetricModel::Counter {
            labels: m.labels,
            value: m.counter_value,
        }),
        kind == MetricKind::Gauge ==> spec_distill_metric(kind, m) == (MetricModel::Gauge {
            labels: m.labels,
            value: m.gauge_value,
        }),
        kind == MetricKind::Counter && m.counter_value is None ==> spec_sum(
            spec_distill_metric(kind, m),
        ) == 0,
        kind == MetricKind::Gauge && m.gauge_value is None ==> spec_sum(
            spec_distill_metric(kind, m),
        ) == 0,
{
}

/// Law: a sample of a Histogram family counts as exactly its recorded
/// sample count, or as `0` when that count was never set.
pub proof fn lemma_distill_histogram_count(m: RawMetricModel)
    ensures
        spec_count(spec_distill_metric(MetricKind::Histogram, m)) == (match m.histogram_count {
            Some(c) => c,
            None => 0u64,
        }),
{
}

/// Law: a sample of a family whose declared kind is not Counter, Gauge or
/// Histogram distills to `Unsupported` carrying that kind, counts as one
/// observation, and sums to the bit pattern of `+0.0`.
pub proof fn lemma_distill_unsupported(kind: MetricKind, m: RawMetricModel)
    requires
        kind != MetricKind::Counter,
        kind != MetricKind::Gauge,
        kind != MetricKind::Histogram,
    ensures
        spec_distill_metric(kind, m) == (MetricModel::Unsupported { kind }),
        spec_count(spec_distill_metric(kind, m)) == 1,
        spec_sum(spec_distill_metric(kind, m)) == 0,
{
}

/// The diagnostics a sequence of distilled metrics calls for: the declared
/// kind of each `Unsupported` metric, one entry per metric, in order.
pub open spec fn spec_unsupported_kinds_of_metrics(ms: Seq<MetricModel>) -> Seq<MetricKind>
    decreases ms.len(),
{
    if ms.len() == 0 {
        Seq::empty()
    } else {
        let rest = spec_unsupported_kinds_of_metrics(ms.drop_last());
        match ms.last() {
            MetricModel::Unsupported { kind } => rest.push(kind),
            _ => rest,
        }
    }
}

/// The diagnostics a distilled snapshot calls for, across all families in
/// order.
pub open spec fn spec_unsupported_kinds(fams: Seq<FamilyModel>) -> Seq<MetricKind>
    decreases fams.len(),
{
    if fams.len() == 0 {
        Seq::empty()
    } else {
        spec_unsupported_kinds(fams.drop_last()) + spec_unsupported_kinds_of_metrics(
            fams.last().metrics,
        )
    }
}

proof fn lemma_kinds_when_all_unsupported(ms: Seq<MetricModel>, kind: MetricKind)
    requires
        forall|i: int| 0 <= i < ms.len() ==> ms[i] == (MetricModel::Unsupported { kind }),
    ensures
        spec_unsupported_kinds_of_metrics(ms) =~= Seq::new(ms.len(), |i: int| kind),
    decreases ms.len(),
{
    if ms.len() > 0 {
        lemma_kinds_when_all_unsupported(ms.drop_last(), kind);
    }
}

proof fn lemma_kinds_when_none_unsupported(ms: Seq<MetricModel>)
    requires
        forall|i: int| 0 <= i < ms.len() ==> !(#[trigger] ms[i] is Unsupported),
    ensures
        spec_unsupported_kinds_of_metrics(ms) == Seq::<MetricKind>::empty(),
    decreases ms.len(),
{
    if ms.len() > 0 {
        lemma_kinds_when_none_unsupported(ms.drop_last());
    }
}

/// Law: a family whose declared kind is not Counter, Gauge or Histogram
/// calls for exactly one diagnostic per sample, each carrying the declared
/// kind; a family of a supported kind calls for none.
pub proof fn lemma_one_diagnostic_per_unsupported_sample(f: RawFamilyModel)
    ensures
        f.kind != MetricKind::Counter && f.kind != MetricKind::Gauge && f.kind
            != MetricKind::Histogram ==> spec_unsupported_kinds_of_metrics(
            spec_distill_family(f).metrics,
        ) == Seq::new(f.metrics.len(), |i: int| f.kind),
        f.kind == MetricKind::Counter || f.kind == MetricKind::Gauge || f.kind
            == MetricKind::Histogram ==> spec_unsupported_kinds_of_metrics(
            spec_distill_family(f).metrics,
        ) == Seq::<MetricKind>::empty(),
{
    let ms = spec_distill_family(f).metrics;
    match f.kind {
        MetricKind::Counter => lemma_kinds_when_none_unsupported(ms),
        MetricKind::Gauge => lemma_kinds_when_none_unsupported(ms),
        MetricKind::Histogram => lemma_kinds_when_none_unsupported(ms),
        MetricKind::Summary => {
            lemma_kinds_when_all_unsupported(ms, f.kind);
            assert(spec_unsupported_kinds_of_metrics(ms) =~= Seq::new(
                f.metrics.len(),
                |i: int| f.kind,
            ));
        },
        MetricKind::Untyped => {
            lemma_kinds_when_all_unsupported(ms, f.kind);
            assert(spec_unsupported_kinds_of_metrics(ms) =~= Seq::new(
                f.metrics.len(),
                |i: int| f.kind,
            ));
        },
    }
}

/// Collects the diagnostics a distilled snapshot calls for: the declared
/// kind of every `Unsupported` metric, one entry per such metric, in
/// order. A caller that reports unsupported kinds emits one message per
/// entry.
pub fn unsupported_kinds(families: &Vec<MetricFamily>) -> (out: Vec<MetricKind>)
    ensures
        out@ == spec_unsupported_kinds(families.deep_view()),
{
    let mut out: Vec<MetricKind> = Vec::new();
    let mut i: usize = 0;
    while i < families.len()
        invariant
            i <= families.len(),
            out@ =~= spec_unsupported_kinds(families.deep_view().take(i as int)),
        decreases families.len() - i,
    {
        let fam = &families[i];
        let mut j: usize = 0;
        while j < fam.metrics.len()
            invariant
                i < families.len(),
                j <= fam.metrics.len(),
                fam.deep_view() == families.deep_view()[i as int],
                out@ =~= spec_unsupported_kinds(families.deep_view().take(i as int))
                    + spec_unsupported_kinds_of_metrics(fam.deep_view().metrics.take(j as int)),
            decreases fam.metrics.len() - j,
        {
            match &fam.metrics[j] {
                Metric::Unsupported(kind) => out.push(*kind),
                _ => {},
            }
            proof {
                let ms = fam.deep_view().metrics;
                assert(ms.take(j + 1).drop_last() =~= ms.take(j as int));
                assert(ms.take(j + 1).last() == ms[j as int]);
            }
            j = j + 1;
        }
        proof {
            let fams = families.deep_view();
            assert(fam.deep_view().metrics.take(fam.metrics.len() as int) =~= fam.deep_view()
                .metrics);
            assert(fams.take(i + 1).drop_last() =~= fams.take(i as int));
            assert(fams.take(i + 1).last() == fams[i as int]);
        }
        i = i + 1;
    }
    proof {
        assert(families.deep_view().take(families.len() as int) =~= families.deep_view());
    }
    out
}

/// Copies a string; the copy reads the same.
fn copy_string(s: &String) -> (out: String)
    ensures
        out@ == s@,
{
    String::from_str(s.as_str())
}

/// Copies a label sequence verbatim: same names, values and order.
fn copy_labels(labels: &Vec<MetricLabel>) -> (out: Vec<MetricLabel>)
    ensures
        out.deep_view() == labels.deep_view(),
{
    let mut out: Vec<MetricLabel> = Vec::new();
    let mut i: usize = 0;
    while i < labels.len()
        invariant
            i <= labels.len(),
            out.deep_view() =~= labels.deep_view().take(i as int),
        decreases labels.len() - i,
    {
        let l = &labels[i];
        let copied = MetricLabel { name: copy_string(&l.name), value: copy_string(&l.value) };
        let ghost pre = out.deep_view();
        let ghost cv = copied.deep_view();
        out.push(copied);
        proof {
            assert(out.deep_view() =~= pre.push(cv));
            assert(out.deep_view() =~= labels.deep_view().take(i + 1));
        }
        i = i + 1;
    }
    proof {
        assert(out.deep_view() =~= labels.deep_view());
    }
    out
}

/// Distills one raw sample under the family's declared kind.
fn distill_metric(kind: MetricKind, m: &RawMetric) -> (out: Metric)
    ensures
        out.deep_view() == spec_distill_metric(kind, m.deep_view()),
{
    match kind {
        MetricKind::Counter => Metric::Counter(copy_labels(&m.labels), m.counter_value),
        MetricKind::Gauge => Metric::Gauge(copy_labels(&m.labels), m.gauge_value),
        MetricKind::Histogram => Metric::Histogram {
            labels: copy_labels(&m.labels),
            sample_count: m.histogram_count,
            sample_sum: m.histogram_sum,
        },
        MetricKind::Summary => Metric::Unsupported(kind),
        MetricKind::Untyped => Metric::Unsupported(kind),
    }
}

/// Distills one raw family: same name, each sample mapped in order.
fn distill_family(f: &RawMetricFamily) -> (out: MetricFamily)
    ensures
        out.deep_view() == spec_distill_family(f.deep_view()),
{
    let mut metrics: Vec<Metric> = Vec::new();
    let mut i: usize = 0;
    while i < f.metrics.len()
        invariant
            i <= f.metrics.len(),
            metrics.deep_view() =~= spec_distill_family(f.deep_view()).metrics.take(i as int),
        decreases f.metrics.len() - i,
    {
        let m = distill_metric(f.kind, &f.metrics[i]);
        let ghost pre = metrics.deep_view();
        let ghost mv = m.deep_view();
        metrics.push(m);
        proof {
            assert(metrics.deep_view() =~= pre.push(mv));
            assert(metrics.deep_view() =~= spec_distill_family(f.deep_view()).metrics.take(
                i + 1,
            ));
        }
        i = i + 1;
    }
    let out = MetricFamily { name: copy_string(&f.name), metrics };
    proof {
        assert(out.deep_view().metrics =~= spec_distill_family(f.deep_view()).metrics);
    }
    out
}

/// Distills an ordered snapshot of raw metric families into the simplified
/// representation: one output family per input family, same order, same
/// name, each raw sample mapped 1:1 to a [`Metric`] variant by the
/// family's declared kind. Never fails: unsupported kinds degrade to
/// [`Metric::Unsupported`] and unset numeric fields stay `None`.
pub fn distill_metric_state(families: &Vec<RawMetricFamily>) -> (out: Vec<MetricFamily>)
    ensures
        out.deep_view() == spec_distill(families.deep_view()),
{
    let mut out: Vec<MetricFamily> = Vec::new();
    let mut i: usize = 0;
    while i < families.len()
        invariant
            i <= families.len(),
            out.deep_view() =~= spec_distill(families.deep_view()).take(i as int),
        decreases families.len() - i,
    {
        let fam = distill_family(&families[i]);
        let ghost pre = out.deep_view();
        let ghost fv = fam.deep_view();
        out.push(fam);
        proof {
            assert(out.deep_view() =~= pre.push(fv));
            assert(out.deep_view() =~= spec_distill(families.deep_view()).take(i + 1));
        }
        i = i + 1;
    }
    proof {
        assert(out.deep_view() =~= spec_distill(families.deep_view()));
    }
    out
}

} // verus!
