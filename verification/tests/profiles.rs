use tkspeed::configs::ConfigRisk;
use tkspeed::profiles::{all, balanced, competitive, power_saver, risk_str, streaming, suite_for, suite_key, Suite};

#[test]
fn all_bundled_profiles_load() {
    let profiles = all();
    assert_eq!(profiles.len(), 4);
    let ids: Vec<&str> = profiles.iter().map(|p| p.id.as_str()).collect();
    assert!(ids.contains(&"competitive"));
    assert!(ids.contains(&"balanced"));
    assert!(ids.contains(&"streaming"));
    assert!(ids.contains(&"power_saver"));
}

#[test]
fn bundled_profiles_have_compositions() {
    for p in all() {
        assert!(!p.compositions.is_empty(), "{} deve ter pelo menos 1 config", p.id);
    }
}

#[test]
fn competitive_requires_fps() {
    assert!(competitive().requires_fps);
}

#[test]
fn non_competitive_profiles_do_not_require_fps() {
    assert!(!balanced().requires_fps);
    assert!(!streaming().requires_fps);
    assert!(!power_saver().requires_fps);
}

#[test]
fn competitive_composition_and_version() {
    let p = competitive();
    let ids: Vec<&str> = p.compositions.iter().map(|c| c.config_id.as_str()).collect();
    assert_eq!(ids, vec!["gpu_hardware_scheduling", "power_plan_high_performance"]);
    assert_eq!(p.bundle_version, 2);
    assert_eq!(p.suite_id, "complete");
    assert!(p.compositions.iter().all(|c| c.value.is_none()));
}

#[test]
fn streaming_only_sets_balanced_plan() {
    let p = streaming();
    assert_eq!(p.compositions.len(), 1);
    assert_eq!(p.compositions[0].config_id, "power_plan_balanced");
    assert_eq!(p.name, "Energia Equilibrada");
    assert_eq!(p.bundle_version, 3);
}

#[test]
fn suite_per_profile() {
    assert_eq!(suite_for("competitive"), Suite::Complete);
    assert_eq!(suite_for("balanced"), Suite::Complete);
    assert_eq!(suite_for("streaming"), Suite::Cpu);
    assert_eq!(suite_for("power_saver"), Suite::Cpu);
    assert_eq!(suite_for("anything"), Suite::Cpu);
    assert_eq!(suite_key(Suite::Complete), "complete-1.0.0");
    assert_eq!(suite_key(Suite::Cpu), "cpu-1.0.0");
}

#[test]
fn risk_strings() {
    assert_eq!(risk_str(&ConfigRisk::Safe), "safe");
    assert_eq!(risk_str(&ConfigRisk::Moderate), "moderate");
    assert_eq!(risk_str(&ConfigRisk::Advanced), "advanced");
}
