use tkspeed::analyzer::{
    classify, compute, detect_hdd_system, empty_diagnosis, finding, mvp_breakdown,
    score_with_total, stability_from_findings, AnalyzerEngine, SCORE_VERSION,
};
use tkspeed::contracts::{Classification, ScoreBreakdown, Severity};

fn breakdown(v: u16) -> ScoreBreakdown {
    ScoreBreakdown {
        cpu: v,
        gpu: v,
        ram: v,
        storage: v,
        windows: v,
        network: v,
        temperature: v,
        games: v,
        stability: v,
    }
}

#[test]
fn perfect_machine_is_elite() {
    let b = ScoreBreakdown {
        cpu: 100, gpu: 100, ram: 100, storage: 100, windows: 100,
        network: 100, temperature: 100, games: 100, stability: 100,
    };
    let s = compute(&b);
    assert_eq!(s.total, 1000);
    assert!(matches!(s.classification, Classification::Elite));
}

#[test]
fn zero_machine_is_critico() {
    let s = compute(&breakdown(0));
    assert_eq!(s.total, 0);
    assert_eq!(s.classification, Classification::Critico);
    assert_eq!(s.score_version, "1.0.0");
}

#[test]
fn weighted_total_is_exact() {
    // 0.16*50 + 0.16*80 + 0.12*70 + 0.12*60 + 0.12*90 + 0.08*40 + 0.12*100 + 0.06*30 + 0.06*20
    // = 8 + 12.8 + 8.4 + 7.2 + 10.8 + 3.2 + 12 + 1.8 + 1.2 = 65.4 → 654
    let b = ScoreBreakdown {
        cpu: 50, gpu: 80, ram: 70, storage: 60, windows: 90,
        network: 40, temperature: 100, games: 30, stability: 20,
    };
    let s = compute(&b);
    assert_eq!(s.total, 654);
    assert_eq!(s.classification, Classification::Bom);
    assert_eq!(s.breakdown, b);
}

#[test]
fn weighted_total_rounds_to_nearest() {
    // only cpu = 1: 0.016 * 1000 = 16 / 10 = 1.6 → 2
    let mut b = breakdown(0);
    b.cpu = 1;
    assert_eq!(compute(&b).total, 2);
    // only network = 1: 0.8 → 1
    let mut b = breakdown(0);
    b.network = 1;
    assert_eq!(compute(&b).total, 1);
    // only games = 1: 0.6 → 1 ; games = 2: 1.2 → 1
    let mut b = breakdown(0);
    b.games = 2;
    assert_eq!(compute(&b).total, 1);
}

#[test]
fn total_saturates_on_out_of_range_subscores() {
    let s = compute(&breakdown(u16::MAX));
    assert_eq!(s.total, u16::MAX);
}

#[test]
fn classification_bands() {
    assert_eq!(classify(0), Classification::Critico);
    assert_eq!(classify(199), Classification::Critico);
    assert_eq!(classify(200), Classification::Regular);
    assert_eq!(classify(449), Classification::Regular);
    assert_eq!(classify(450), Classification::Bom);
    assert_eq!(classify(699), Classification::Bom);
    assert_eq!(classify(700), Classification::Excelente);
    assert_eq!(classify(899), Classification::Excelente);
    assert_eq!(classify(900), Classification::Elite);
    assert_eq!(classify(1000), Classification::Elite);
}

#[test]
fn raising_a_subscore_never_lowers_total() {
    let mut prev = 0;
    for v in 0..=100u16 {
        let t = compute(&breakdown(v)).total;
        assert!(t >= prev);
        assert!(t <= 1000);
        prev = t;
    }
}

#[test]
fn empty_diagnosis_is_zeroed() {
    let d = empty_diagnosis(42);
    assert_eq!(d.run_id, 42);
    assert!(d.findings.is_empty());
    assert_eq!(d.score.total, 0);
    assert_eq!(d.score.classification, Classification::Critico);
    assert_eq!(d.score.breakdown, breakdown(0));
    assert_eq!(d.score.score_version, SCORE_VERSION);
}

#[test]
fn hdd_is_reported_and_ssd_is_not() {
    assert!(detect_hdd_system(true).is_none());
    let f = detect_hdd_system(false).expect("HDD deve gerar finding");
    assert_eq!(f.kind, "storage_hdd_system");
    assert_eq!(f.severity, Severity::Low);
    assert!(!f.title.is_empty());
}

#[test]
fn finding_keeps_its_parts() {
    let f = finding("k", Severity::High, "t", "i", "s");
    assert_eq!((f.kind.as_str(), f.title.as_str(), f.impact.as_str(), f.solution.as_str()), ("k", "t", "i", "s"));
    assert_eq!(f.severity, Severity::High);
}

#[test]
fn stability_follows_finding_severities() {
    assert_eq!(stability_from_findings(&[]), 100);
    let fs = vec![
        finding("a", Severity::Critical, "", "", ""),
        finding("b", Severity::High, "", "", ""),
        finding("c", Severity::Low, "", "", ""),
        finding("d", Severity::Info, "", "", ""),
    ];
    // 100 - 35 - 20 - 4 - 0 = 41
    assert_eq!(stability_from_findings(&fs), 41);
    let many: Vec<_> = (0..5).map(|_| finding("x", Severity::Critical, "", "", "")).collect();
    assert_eq!(stability_from_findings(&many), 0);
}

#[test]
fn mvp_breakdown_fills_unmeasured_with_neutral_mean() {
    let b = mvp_breakdown(90, 60, 85, 100);
    assert_eq!(b.cpu, 90);
    assert_eq!(b.ram, 60);
    assert_eq!(b.storage, 85);
    assert_eq!(b.stability, 100);
    assert_eq!(b.gpu, 78);
    assert_eq!(b.windows, 78);
    assert_eq!(b.network, 78);
    assert_eq!(b.temperature, 78);
    assert_eq!(b.games, 78);
    let s = score_with_total(837, b);
    assert_eq!(s.classification, Classification::Excelente);
    assert_eq!(s.total, 837);
}

#[test]
fn analyzer_engine_builds() {
    assert_eq!(AnalyzerEngine::new(), AnalyzerEngine);
}
