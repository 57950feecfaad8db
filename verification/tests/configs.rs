use serde_json::Value;
use tkspeed::configs::{
    cpu_core_parking, gpu_hardware_scheduling, visual_effects_gaming, ConfigCategory, ConfigError,
    ConfigRegistry, ConfigRisk,
};

fn reg() -> ConfigRegistry {
    ConfigRegistry::new()
}

#[test]
fn registry_has_eight_configs() {
    assert_eq!(reg().all().len(), 8);
}

#[test]
fn memory_standby_flush_not_in_registry() {
    assert!(reg().find("memory_standby_flush").is_none());
}

#[test]
fn registry_all_ids_are_unique() {
    let r = reg();
    let metas = r.all_meta();
    let mut ids: Vec<&str> = metas.iter().map(|m| m.id).collect();
    ids.sort_unstable();
    ids.dedup();
    assert_eq!(ids.len(), 8, "IDs duplicados detectados");
}

#[test]
fn all_configs_have_non_empty_benchmark_relevance() {
    for m in reg().all_meta() {
        assert!(!m.benchmark_relevance.is_empty(), "config '{}' sem benchmark_relevance", m.id);
    }
}

#[test]
fn all_configs_are_reversible() {
    for m in reg().all_meta() {
        assert!(m.reversible, "config '{}' não é reversível", m.id);
    }
}

#[test]
fn find_existing_config() {
    let r = reg();
    let c = r.find("gpu_hardware_scheduling");
    assert!(c.is_some());
    assert_eq!(c.unwrap().meta().id, "gpu_hardware_scheduling");
}

#[test]
fn find_nonexistent_returns_none() {
    assert!(reg().find("does_not_exist").is_none());
}

#[test]
fn network_stack_not_in_registry() {
    assert!(reg().find("network_stack").is_none());
}

#[test]
fn power_category_has_three_entries() {
    assert_eq!(reg().by_category(&ConfigCategory::Power).len(), 3);
}

#[test]
fn timer_category_has_two_entries() {
    assert_eq!(reg().by_category(&ConfigCategory::Timer).len(), 2);
}

#[test]
fn gpu_category_has_one_entry() {
    let r = reg();
    let gpu = r.by_category(&ConfigCategory::Gpu);
    assert_eq!(gpu.len(), 1);
    assert_eq!(gpu[0].meta().id, "gpu_hardware_scheduling");
}

#[test]
fn cpu_category_has_one_entry() {
    let r = reg();
    let cpu = r.by_category(&ConfigCategory::Cpu);
    assert_eq!(cpu.len(), 1);
    assert_eq!(cpu[0].meta().id, "cpu_core_parking");
}

#[test]
fn only_timer_configs_are_moderate() {
    let r = reg();
    let moderate: Vec<_> = r.all_meta().into_iter().filter(|m| m.risk == ConfigRisk::Moderate).collect();
    assert_eq!(moderate.len(), 2);
    let ids: Vec<&str> = moderate.iter().map(|m| m.id).collect();
    assert!(ids.contains(&"timer_resolution"));
    assert!(ids.contains(&"hpet"));
}

#[test]
fn by_max_risk_safe_returns_six() {
    let r = reg();
    let safe = r.by_max_risk(&ConfigRisk::Safe);
    assert_eq!(safe.len(), 6);
    for c in &safe {
        assert_ne!(c.meta().risk, ConfigRisk::Moderate, "config '{}' não deveria ser Moderate", c.meta().id);
    }
}

#[test]
fn by_max_risk_moderate_includes_all() {
    assert_eq!(reg().by_max_risk(&ConfigRisk::Moderate).len(), 8);
}

#[test]
fn reboot_required_configs_are_exactly_three() {
    let reboot: Vec<&str> = reg().all_meta().into_iter().filter(|m| m.requires_reboot).map(|m| m.id).collect();
    assert!(reboot.contains(&"gpu_hardware_scheduling"));
    assert!(reboot.contains(&"cpu_core_parking"));
    assert!(reboot.contains(&"hpet"));
    assert_eq!(reboot.len(), 3);
}

#[test]
fn reboot_count_is_three() {
    assert_eq!(reg().reboot_required_count(), 3);
}

#[test]
fn power_plans_do_not_require_elevation() {
    let r = reg();
    for id in ["power_plan_high_performance", "power_plan_balanced", "power_plan_power_saver"] {
        let c = r.find(id).expect("power plan deve existir");
        assert!(!c.meta().requires_elevation, "{id} não deve exigir admin");
    }
}

#[test]
fn reboot_configs_are_not_eligible_for_auto_evidence() {
    for m in reg().all_meta() {
        if m.requires_reboot {
            assert!(!m.eligible_for_auto_evidence(), "config '{}'", m.id);
        }
    }
}

#[test]
fn non_reboot_reversible_configs_are_eligible_for_auto_evidence() {
    for m in reg().all_meta() {
        if !m.requires_reboot && m.reversible {
            assert!(m.eligible_for_auto_evidence(), "config '{}'", m.id);
        }
    }
}

#[test]
fn eligible_with_all_capabilities_returns_all_eight() {
    let caps = &["fps", "frame_time", "cpu_multi", "cpu_single"];
    assert_eq!(reg().eligible_for_profiles(caps).len(), 8);
}

#[test]
fn eligible_with_only_cpu_multi_excludes_gpu() {
    let r = reg();
    let eligible = r.eligible_for_profiles(&["cpu_multi"]);
    let ids: Vec<&str> = eligible.iter().map(|c| c.meta().id).collect();
    assert!(!ids.contains(&"gpu_hardware_scheduling"));
    assert!(ids.contains(&"visual_effects_gaming"));
}

#[test]
fn eligible_with_no_capabilities_returns_empty() {
    assert!(reg().eligible_for_profiles(&[]).is_empty());
}

#[test]
fn read_current_returns_not_implemented() {
    assert!(matches!(gpu_hardware_scheduling().read_current(), Err(ConfigError::NotImplemented(_))));
}

#[test]
fn apply_returns_not_implemented() {
    assert!(matches!(cpu_core_parking().apply(&Value::Null), Err(ConfigError::NotImplemented(_))));
}

#[test]
fn revert_returns_not_implemented() {
    assert!(matches!(visual_effects_gaming().revert(&Value::Null), Err(ConfigError::NotImplemented(_))));
}

#[test]
fn not_implemented_names_the_config() {
    match cpu_core_parking().apply(&Value::Null) {
        Err(ConfigError::NotImplemented(id)) => assert_eq!(id, "cpu_core_parking"),
        other => panic!("inesperado: {other:?}"),
    }
}

#[test]
fn category_and_risk_keys() {
    assert_eq!(ConfigCategory::Gpu.as_str(), "gpu");
    assert_eq!(ConfigCategory::Memory.as_str(), "memory");
    assert_eq!(ConfigCategory::Display.as_str(), "display");
    assert_eq!(ConfigRisk::Safe.as_str(), "safe");
    assert_eq!(ConfigRisk::Moderate.as_str(), "moderate");
    assert_eq!(ConfigRisk::Advanced.as_str(), "advanced");
    assert!(ConfigRisk::Safe.at_most(&ConfigRisk::Advanced));
    assert!(!ConfigRisk::Advanced.at_most(&ConfigRisk::Moderate));
}

#[test]
fn measurable_evidence_matches_any_relevant_benchmark() {
    let m = *gpu_hardware_scheduling().meta();
    assert!(m.has_measurable_evidence(&["frame_time"]));
    assert!(!m.has_measurable_evidence(&["cpu_multi", "cpu_single"]));
    assert!(!m.has_measurable_evidence(&[]));
}
