use std::collections::HashSet;

use tkspeed::capabilities::Capability;
use tkspeed::recommendations::{
    EvidenceFacts, RecommendationCandidate, RecommendationContext, RecommendationEngine,
    RecommendationKind,
};

fn cap(id: &str, st: &str) -> Capability {
    Capability { id: id.into(), status: st.into(), detail: String::new() }
}

fn base_caps() -> Vec<Capability> {
    vec![
        cap("benchmark_engine", "ready"),
        cap("fps_measurement", "missing"),
        cap("gpu_monitoring", "unavailable"),
        cap("cpu_monitoring", "ready"),
        cap("admin_privileges", "missing"),
    ]
}

fn base_ctx() -> RecommendationContext {
    RecommendationContext {
        machine_fingerprint: "fp-test".into(),
        capabilities: base_caps(),
        recent_session_count: 0,
        active_profile: None,
        active_config_ids: vec![],
        config_evidence: vec![],
        profile_evidence: vec![],
        applicable_config_ids: vec!["power_plan_balanced".into(), "visual_effects_gaming".into()],
    }
}

/// Evidence as the rules read it; the gain enters by its sign.
fn make_ev(id: &str, confidence: u8, gain: f64, succ: u32, total: u32) -> EvidenceFacts {
    EvidenceFacts {
        subject_id: id.into(),
        executions: total,
        successful_executions: succ,
        confidence,
        gain_above_zero: gain > 0.0,
    }
}

fn ids(recs: &[RecommendationCandidate]) -> Vec<String> {
    recs.iter().map(|r| r.id.clone()).collect()
}

#[test]
fn generate_returns_applicable_configs() {
    let recs = RecommendationEngine::generate(&base_ctx());
    let ids = ids(&recs);
    assert!(ids.contains(&"config:power_plan_balanced".to_string()));
    assert!(ids.contains(&"config:visual_effects_gaming".to_string()));
}

#[test]
fn generate_excludes_non_applicable_configs() {
    let recs = RecommendationEngine::generate(&base_ctx());
    let ids = ids(&recs);
    assert!(!ids.contains(&"config:gpu_hardware_scheduling".to_string()));
    assert!(!ids.contains(&"config:power_plan_high_performance".to_string()));
}

#[test]
fn generate_excludes_active_config_ids() {
    let mut ctx = base_ctx();
    ctx.active_config_ids = vec!["power_plan_balanced".into()];
    let ids = ids(&RecommendationEngine::generate(&ctx));
    assert!(!ids.contains(&"config:power_plan_balanced".to_string()));
    assert!(ids.contains(&"config:visual_effects_gaming".to_string()));
}

#[test]
fn generate_benchmark_rec_when_no_sessions() {
    let recs = RecommendationEngine::generate(&base_ctx());
    assert!(recs.iter().any(|r| r.id == "benchmark:initial"));
}

#[test]
fn generate_no_benchmark_rec_when_sessions_exist() {
    let mut ctx = base_ctx();
    ctx.recent_session_count = 1;
    let recs = RecommendationEngine::generate(&ctx);
    assert!(!recs.iter().any(|r| r.id == "benchmark:initial"));
}

#[test]
fn generate_benchmark_rec_absent_when_engine_not_ready() {
    let mut ctx = base_ctx();
    ctx.capabilities = vec![cap("benchmark_engine", "missing")];
    let recs = RecommendationEngine::generate(&ctx);
    assert!(!recs.iter().any(|r| r.id == "benchmark:initial"));
}

#[test]
fn generate_competitive_excluded_when_fps_not_ready() {
    let recs = RecommendationEngine::generate(&base_ctx());
    assert!(!recs.iter().any(|r| r.id == "profile:competitive"));
}

#[test]
fn generate_competitive_included_when_fps_ready() {
    let mut ctx = base_ctx();
    ctx.capabilities = vec![cap("benchmark_engine", "ready"), cap("fps_measurement", "ready")];
    let recs = RecommendationEngine::generate(&ctx);
    assert!(recs.iter().any(|r| r.id == "profile:competitive"));
}

#[test]
fn generate_active_profile_excluded_from_profile_recs() {
    let mut ctx = base_ctx();
    ctx.active_profile = Some("balanced".into());
    let recs = RecommendationEngine::generate(&ctx);
    assert!(!recs.iter().any(|r| r.id == "profile:balanced"));
}

#[test]
fn generate_config_with_failure_evidence_excluded() {
    let mut ctx = base_ctx();
    ctx.config_evidence = vec![make_ev("power_plan_balanced", 0, 0.0, 0, 5)];
    let recs = RecommendationEngine::generate(&ctx);
    assert!(!recs.iter().any(|r| r.id == "config:power_plan_balanced"));
}

#[test]
fn generate_config_with_success_evidence_uses_evidence_score() {
    let mut ctx = base_ctx();
    let gains = [4.5];
    ctx.config_evidence = vec![make_ev("visual_effects_gaming", 75, gains[0], 7, 9)];
    let recs = RecommendationEngine::generate(&ctx);
    let rec = recs.iter().find(|r| r.id == "config:visual_effects_gaming").unwrap();
    assert_eq!(rec.confidence, 75);
    let ev = rec.evidence.map(|i| &ctx.config_evidence[i]);
    let estimated_gain = ev.and_then(|e| if e.successful_executions > 0 { Some(gains[rec.evidence.unwrap()]) } else { None });
    assert_eq!(estimated_gain, Some(4.5));
}

#[test]
fn generate_profile_with_success_evidence_uses_evidence_score() {
    let mut ctx = base_ctx();
    let gains = [3.0];
    ctx.profile_evidence = vec![make_ev("balanced", 50, gains[0], 3, 4)];
    let recs = RecommendationEngine::generate(&ctx);
    let rec = recs.iter().find(|r| r.id == "profile:balanced").unwrap();
    assert_eq!(rec.confidence, 50);
    let ev = rec.evidence.map(|i| &ctx.profile_evidence[i]);
    let estimated_gain = ev.and_then(|e| if e.successful_executions > 0 { Some(gains[rec.evidence.unwrap()]) } else { None });
    assert_eq!(estimated_gain, Some(3.0));
}

#[test]
fn generate_no_duplicate_ids() {
    let recs = RecommendationEngine::generate(&base_ctx());
    let ids = ids(&recs);
    let unique: HashSet<_> = ids.iter().collect();
    assert_eq!(ids.len(), unique.len());
}

#[test]
fn top_5_benchmark_present_when_only_rec_available() {
    let mut ctx = base_ctx();
    ctx.applicable_config_ids = vec![];
    ctx.capabilities = vec![cap("benchmark_engine", "ready"), cap("fps_measurement", "missing")];
    ctx.active_profile = Some("balanced".into());
    let all = RecommendationEngine::generate(&ctx);
    assert!(
        all.iter().any(|r| r.kind == RecommendationKind::Benchmark),
        "benchmark rec should always be generated when no sessions and engine ready"
    );
}

#[test]
fn recommendation_kind_config_has_correct_risk_field() {
    let recs = RecommendationEngine::generate(&base_ctx());
    for r in recs.iter().filter(|r| r.kind == RecommendationKind::Config) {
        let valid_risks = ["safe", "moderate", "advanced"];
        assert!(valid_risks.contains(&r.risk.as_str()), "unexpected risk: {}", r.risk);
    }
}

#[test]
fn config_evidence_no_successful_has_none_estimated_gain() {
    let mut ctx = base_ctx();
    ctx.config_evidence = vec![make_ev("visual_effects_gaming", 25, 2.0, 0, 3)];
    let recs = RecommendationEngine::generate(&ctx);
    let rec = recs.iter().find(|r| r.id == "config:visual_effects_gaming");
    assert!(rec.is_none(), "config with 0 successful execs should be excluded");
}

#[test]
fn all_profile_recs_have_safe_risk() {
    let mut ctx = base_ctx();
    ctx.capabilities = vec![cap("benchmark_engine", "ready"), cap("fps_measurement", "ready")];
    let recs = RecommendationEngine::generate(&ctx);
    for r in recs.iter().filter(|r| r.kind == RecommendationKind::Profile) {
        assert_eq!(r.risk, "safe");
    }
}

#[test]
fn generate_full_order_and_fields() {
    let ctx = base_ctx();
    let recs = RecommendationEngine::generate(&ctx);
    assert_eq!(
        ids(&recs),
        vec![
            "config:visual_effects_gaming",
            "config:power_plan_balanced",
            "profile:balanced",
            "profile:streaming",
            "profile:power_saver",
            "benchmark:initial",
        ]
    );
    let bench = recs.last().unwrap();
    assert_eq!(bench.kind, RecommendationKind::Benchmark);
    assert_eq!(bench.title, "Executar benchmark inicial");
    assert_eq!(bench.confidence, 0);
    assert_eq!(bench.evidence, None);
    let balanced = &recs[2];
    assert_eq!(balanced.title, "Balanced Gaming");
    assert_eq!(balanced.description, "Equilibra desempenho, estabilidade e temperatura.");
    assert!(!balanced.requires_reboot);
}

#[test]
fn evidence_without_positive_gain_excludes_and_first_record_counts() {
    let mut ctx = base_ctx();
    ctx.config_evidence = vec![
        make_ev("visual_effects_gaming", 80, -1.0, 4, 4),
        make_ev("power_plan_balanced", 60, 2.0, 2, 2),
        make_ev("power_plan_balanced", 0, 0.0, 0, 9),
    ];
    ctx.profile_evidence = vec![make_ev("streaming", 0, 5.0, 1, 1)];
    let recs = RecommendationEngine::generate(&ctx);
    let ids = ids(&recs);
    assert!(!ids.contains(&"config:visual_effects_gaming".to_string()));
    assert!(!ids.contains(&"profile:streaming".to_string()));
    let balanced = recs.iter().find(|r| r.id == "config:power_plan_balanced").unwrap();
    assert_eq!(balanced.evidence, Some(1));
    assert_eq!(balanced.confidence, 60);
    assert_eq!(balanced.risk, "safe");
}
