use tkspeed::contracts::{Classification, MetricSource, Severity};
use tkspeed::storage::{
    now_ms, parse_classification, retention_cutoffs, severity_from_str, HousekeepingReport,
    RetentionPolicy, DAY_MS,
};

#[test]
fn classification_keys_round_trip() {
    for c in [Classification::Critico, Classification::Regular, Classification::Bom, Classification::Excelente, Classification::Elite] {
        assert_eq!(parse_classification(c.as_str()), c);
    }
    assert_eq!(parse_classification("desconhecido"), Classification::Critico);
    assert_eq!(parse_classification("Elite"), Classification::Critico);
}

#[test]
fn severity_keys_round_trip() {
    for s in [Severity::Info, Severity::Low, Severity::Medium, Severity::High, Severity::Critical] {
        assert_eq!(severity_from_str(s.as_str()), s);
    }
    assert_eq!(severity_from_str("fatal"), Severity::Info);
}

#[test]
fn metric_source_keys() {
    assert_eq!(MetricSource::Cpu.as_str(), "cpu");
    assert_eq!(MetricSource::Temp.as_str(), "temp");
    assert_eq!(MetricSource::Fps.as_str(), "fps");
}

#[test]
fn default_retention_policy() {
    let p = RetentionPolicy::default();
    assert_eq!(p, RetentionPolicy { metrics_days: 7, audit_days: 90, analysis_days: 90, max_snapshots: 50 });
    assert_eq!(HousekeepingReport::default().snapshots_deleted, 0);
}

#[test]
fn retention_cutoffs_subtract_whole_days() {
    let p = RetentionPolicy::default();
    let now = 1_700_000_000_000i64;
    assert_eq!(retention_cutoffs(now, &p), (now - 7 * DAY_MS, now - 90 * DAY_MS, now - 90 * DAY_MS));
}

#[test]
fn now_is_after_2020() {
    assert!(now_ms() > 1_577_836_800_000);
}
