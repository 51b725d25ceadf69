use metric_distill::{
    distill_metric_state, unsupported_kinds, FloatBits, Metric, MetricFamily, MetricKind,
    MetricLabel, RawMetric, RawMetricFamily,
};

fn label(name: &str, value: &str) -> MetricLabel {
    MetricLabel { name: name.to_string(), value: value.to_string() }
}

fn bits(v: f64) -> FloatBits {
    FloatBits { bits: v.to_bits() }
}

fn empty_sample(labels: Vec<MetricLabel>) -> RawMetric {
    RawMetric {
        labels,
        counter_value: None,
        gauge_value: None,
        histogram_count: None,
        histogram_sum: None,
    }
}

#[test]
fn empty_input_distills_to_empty_output() {
    let out = distill_metric_state(&Vec::new());
    assert_eq!(out, Vec::new());
}

#[test]
fn families_keep_count_order_and_names() {
    let families = vec![
        RawMetricFamily {
            name: "alpha".to_string(),
            kind: MetricKind::Counter,
            metrics: vec![empty_sample(vec![])],
        },
        RawMetricFamily {
            name: "beta".to_string(),
            kind: MetricKind::Gauge,
            metrics: vec![empty_sample(vec![]), empty_sample(vec![])],
        },
        RawMetricFamily {
            name: "gamma".to_string(),
            kind: MetricKind::Histogram,
            metrics: vec![],
        },
    ];
    let out = distill_metric_state(&families);
    assert_eq!(out.len(), 3);
    assert_eq!(out[0].name, "alpha");
    assert_eq!(out[1].name, "beta");
    assert_eq!(out[2].name, "gamma");
    assert_eq!(out[0].metrics.len(), 1);
    assert_eq!(out[1].metrics.len(), 2);
    assert_eq!(out[2].metrics.len(), 0);
}

#[test]
fn labels_are_copied_verbatim_in_order() {
    let mut sample = empty_sample(vec![
        label("method", "GET"),
        label("", "empty-name"),
        label("dup", "1"),
        label("dup", "1"),
    ]);
    sample.counter_value = Some(bits(1.0));
    let families = vec![RawMetricFamily {
        name: "requests".to_string(),
        kind: MetricKind::Counter,
        metrics: vec![sample],
    }];
    let out = distill_metric_state(&families);
    match &out[0].metrics[0] {
        Metric::Counter(labels, _) => {
            assert_eq!(
                labels,
                &vec![
                    label("method", "GET"),
                    label("", "empty-name"),
                    label("dup", "1"),
                    label("dup", "1"),
                ]
            );
        }
        other => panic!("expected a counter, got {:?}", other),
    }
}

#[test]
fn counter_value_set_is_kept_and_unset_stays_none() {
    let mut set = empty_sample(vec![]);
    set.counter_value = Some(bits(7.5));
    let unset = empty_sample(vec![]);
    let families = vec![RawMetricFamily {
        name: "c".to_string(),
        kind: MetricKind::Counter,
        metrics: vec![set, unset],
    }];
    let out = distill_metric_state(&families);
    assert_eq!(out[0].metrics[0], Metric::Counter(vec![], Some(bits(7.5))));
    assert_eq!(out[0].metrics[1], Metric::Counter(vec![], None));
    assert_eq!(out[0].metrics[0].sum().bits, 7.5f64.to_bits());
    assert_eq!(out[0].metrics[1].sum().bits, 0.0f64.to_bits());
}

#[test]
fn counter_value_zero_is_distinct_from_unset() {
    let mut set = empty_sample(vec![]);
    set.counter_value = Some(bits(0.0));
    let families = vec![RawMetricFamily {
        name: "c".to_string(),
        kind: MetricKind::Counter,
        metrics: vec![set],
    }];
    let out = distill_metric_state(&families);
    assert_eq!(out[0].metrics[0], Metric::Counter(vec![], Some(bits(0.0))));
    assert_ne!(out[0].metrics[0], Metric::Counter(vec![], None));
}

#[test]
fn gauge_value_set_and_unset() {
    let mut set = empty_sample(vec![label("node", "a")]);
    set.gauge_value = Some(bits(-2.25));
    let unset = empty_sample(vec![]);
    let families = vec![RawMetricFamily {
        name: "g".to_string(),
        kind: MetricKind::Gauge,
        metrics: vec![set, unset],
    }];
    let out = distill_metric_state(&families);
    assert_eq!(
        out[0].metrics[0],
        Metric::Gauge(vec![label("node", "a")], Some(bits(-2.25)))
    );
    assert_eq!(out[0].metrics[0].sum().bits, (-2.25f64).to_bits());
    assert_eq!(out[0].metrics[1], Metric::Gauge(vec![], None));
    assert_eq!(out[0].metrics[1].sum().bits, 0.0f64.to_bits());
}

#[test]
fn counter_family_ignores_other_payload_fields() {
    let mut sample = empty_sample(vec![]);
    sample.gauge_value = Some(bits(9.0));
    sample.histogram_count = Some(3);
    sample.histogram_sum = Some(bits(4.0));
    let families = vec![RawMetricFamily {
        name: "c".to_string(),
        kind: MetricKind::Counter,
        metrics: vec![sample],
    }];
    let out = distill_metric_state(&families);
    assert_eq!(out[0].metrics[0], Metric::Counter(vec![], None));
}

#[test]
fn histogram_count_unset_is_zero() {
    let families = vec![RawMetricFamily {
        name: "h".to_string(),
        kind: MetricKind::Histogram,
        metrics: vec![empty_sample(vec![])],
    }];
    let out = distill_metric_state(&families);
    assert_eq!(
        out[0].metrics[0],
        Metric::Histogram { labels: vec![], sample_count: None, sample_sum: None }
    );
    assert_eq!(out[0].metrics[0].count(), 0);
    assert_eq!(out[0].metrics[0].sum().bits, 0.0f64.to_bits());
}

#[test]
fn histogram_count_and_sum_are_kept() {
    let mut sample = empty_sample(vec![]);
    sample.histogram_count = Some(42);
    sample.histogram_sum = Some(bits(12.5));
    let families = vec![RawMetricFamily {
        name: "h".to_string(),
        kind: MetricKind::Histogram,
        metrics: vec![sample],
    }];
    let out = distill_metric_state(&families);
    assert_eq!(
        out[0].metrics[0],
        Metric::Histogram { labels: vec![], sample_count: Some(42), sample_sum: Some(bits(12.5)) }
    );
    assert_eq!(out[0].metrics[0].count(), 42);
    assert_eq!(out[0].metrics[0].sum().bits, 12.5f64.to_bits());
}

#[test]
fn unsupported_kinds_degrade_per_sample() {
    let families = vec![
        RawMetricFamily {
            name: "s".to_string(),
            kind: MetricKind::Summary,
            metrics: vec![empty_sample(vec![label("k", "v")]), empty_sample(vec![])],
        },
        RawMetricFamily {
            name: "u".to_string(),
            kind: MetricKind::Untyped,
            metrics: vec![empty_sample(vec![])],
        },
    ];
    let out = distill_metric_state(&families);
    assert_eq!(out[0].metrics.len(), 2);
    for m in &out[0].metrics {
        assert_eq!(m, &Metric::Unsupported(MetricKind::Summary));
        assert_eq!(m.count(), 1);
        assert_eq!(m.sum().bits, 0.0f64.to_bits());
    }
    assert_eq!(out[1].metrics[0], Metric::Unsupported(MetricKind::Untyped));
}

#[test]
fn one_diagnostic_per_unsupported_sample() {
    let mut counter = empty_sample(vec![]);
    counter.counter_value = Some(bits(1.0));
    let families = vec![
        RawMetricFamily {
            name: "s".to_string(),
            kind: MetricKind::Summary,
            metrics: vec![empty_sample(vec![]), empty_sample(vec![])],
        },
        RawMetricFamily {
            name: "c".to_string(),
            kind: MetricKind::Counter,
            metrics: vec![counter],
        },
        RawMetricFamily {
            name: "u".to_string(),
            kind: MetricKind::Untyped,
            metrics: vec![empty_sample(vec![])],
        },
    ];
    let out = distill_metric_state(&families);
    assert_eq!(
        unsupported_kinds(&out),
        vec![MetricKind::Summary, MetricKind::Summary, MetricKind::Untyped]
    );
}

#[test]
fn no_diagnostics_for_supported_kinds() {
    let families = vec![
        RawMetricFamily {
            name: "c".to_string(),
            kind: MetricKind::Counter,
            metrics: vec![empty_sample(vec![])],
        },
        RawMetricFamily {
            name: "h".to_string(),
            kind: MetricKind::Histogram,
            metrics: vec![empty_sample(vec![])],
        },
    ];
    let out = distill_metric_state(&families);
    assert_eq!(unsupported_kinds(&out), Vec::new());
}

#[test]
fn counter_gauge_and_unsupported_count_as_one() {
    let mut counter = empty_sample(vec![]);
    counter.counter_value = Some(bits(3.0));
    let families = vec![
        RawMetricFamily {
            name: "c".to_string(),
            kind: MetricKind::Counter,
            metrics: vec![counter],
        },
        RawMetricFamily {
            name: "g".to_string(),
            kind: MetricKind::Gauge,
            metrics: vec![empty_sample(vec![])],
        },
        RawMetricFamily {
            name: "s".to_string(),
            kind: MetricKind::Summary,
            metrics: vec![empty_sample(vec![])],
        },
    ];
    let out = distill_metric_state(&families);
    assert_eq!(out[0].metrics[0].count(), 1);
    assert_eq!(out[1].metrics[0].count(), 1);
    assert_eq!(out[2].metrics[0].count(), 1);
}

#[test]
fn end_to_end_requests_total() {
    let mut sample_a = empty_sample(vec![label("method", "GET")]);
    sample_a.counter_value = Some(bits(5.0));
    let sample_b = empty_sample(vec![label("method", "POST")]);
    let families = vec![RawMetricFamily {
        name: "requests_total".to_string(),
        kind: MetricKind::Counter,
        metrics: vec![sample_a, sample_b],
    }];
    let out = distill_metric_state(&families);
    assert_eq!(
        out,
        vec![MetricFamily {
            name: "requests_total".to_string(),
            metrics: vec![
                Metric::Counter(vec![label("method", "GET")], Some(bits(5.0))),
                Metric::Counter(vec![label("method", "POST")], None),
            ],
        }]
    );
    assert_eq!(out[0].metrics[0].sum().bits, 5.0f64.to_bits());
    assert_eq!(out[0].metrics[1].sum().bits, 0.0f64.to_bits());
    assert_eq!(out[0].metrics[0].count(), 1);
    assert_eq!(out[0].metrics[1].count(), 1);
}
