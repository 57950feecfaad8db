use tkspeed::profiles::{
    build_action, ConfigAction, SystemState, GUID_BALANCED, GUID_HIGH_PERF, GUID_POWER_SAVER,
};
use tkspeed::rollback::ReversibleAction;

/// A Windows installation with the balanced and high-performance plans
/// (balanced active), HAGS and visual effects unset.
fn windows(elevated: bool) -> SystemState {
    SystemState {
        elevated,
        power_schemes: vec![GUID_BALANCED.to_string(), GUID_HIGH_PERF.to_string()],
        active_scheme: Ok(GUID_BALANCED.to_string()),
        hags_mode: Ok(None),
        visual_fx: Ok(Some(0)),
    }
}

fn scheme_exists(st: &SystemState, guid: &str) -> bool {
    st.power_schemes.iter().any(|g| g == guid)
}

#[test]
fn high_performance_result_matches_scheme_existence() {
    let st = windows(false);
    let exists = scheme_exists(&st, GUID_HIGH_PERF);
    let action = build_action("power_plan_high_performance", &st).unwrap();
    if exists {
        assert!(matches!(action, ConfigAction::Executable(_)));
    } else {
        assert!(matches!(action, ConfigAction::Unsupported { .. }));
    }
}

#[test]
fn balanced_is_always_available_and_executable() {
    let st = windows(false);
    assert!(scheme_exists(&st, GUID_BALANCED));
    let action = build_action("power_plan_balanced", &st).unwrap();
    assert!(matches!(action, ConfigAction::Executable(_)));
}

#[test]
fn power_saver_result_matches_scheme_existence() {
    let st = windows(false);
    let exists = scheme_exists(&st, GUID_POWER_SAVER);
    let action = build_action("power_plan_power_saver", &st).unwrap();
    if exists {
        assert!(matches!(action, ConfigAction::Executable(_)));
    } else {
        assert!(matches!(action, ConfigAction::Unsupported { .. }));
    }
}

#[test]
fn balanced_action_has_correct_new_guid() {
    let action = build_action("power_plan_balanced", &windows(false)).unwrap();
    if let ConfigAction::Executable(ReversibleAction::PowerPlan { new_guid, .. }) = action {
        assert_eq!(new_guid, GUID_BALANCED);
    } else {
        panic!("power_plan_balanced deve ser Executable");
    }
}

#[test]
fn high_perf_action_has_correct_new_guid_when_available() {
    let st = windows(false);
    if !scheme_exists(&st, GUID_HIGH_PERF) {
        return;
    }
    let action = build_action("power_plan_high_performance", &st).unwrap();
    if let ConfigAction::Executable(ReversibleAction::PowerPlan { new_guid, .. }) = action {
        assert_eq!(new_guid, GUID_HIGH_PERF);
    } else {
        panic!("high_performance deve ser Executable quando disponível");
    }
}

#[test]
fn power_saver_action_has_correct_new_guid_when_available() {
    let mut st = windows(false);
    st.power_schemes.push(GUID_POWER_SAVER.to_string());
    let action = build_action("power_plan_power_saver", &st).unwrap();
    if let ConfigAction::Executable(ReversibleAction::PowerPlan { new_guid, .. }) = action {
        assert_eq!(new_guid, GUID_POWER_SAVER);
    } else {
        panic!("power_saver deve ser Executable quando disponível");
    }
}

#[test]
fn power_plan_action_captures_old_guid() {
    let action = build_action("power_plan_balanced", &windows(false)).unwrap();
    if let ConfigAction::Executable(ReversibleAction::PowerPlan { old_guid, .. }) = action {
        assert_eq!(old_guid.len(), 36, "GUID deve ter 36 caracteres sem braces");
        assert!(old_guid.contains('-'), "GUID deve conter hífens");
    } else {
        panic!("power_plan_balanced deve ser Executable");
    }
}

#[test]
fn gpu_hardware_scheduling_matches_elevation() {
    for elevated in [false, true] {
        let action = build_action("gpu_hardware_scheduling", &windows(elevated)).unwrap();
        if elevated {
            assert!(matches!(action, ConfigAction::Executable(ReversibleAction::RegistryHklmDword { .. })));
        } else {
            assert!(matches!(action, ConfigAction::Unsupported { .. }));
        }
    }
}

#[test]
fn gpu_hardware_scheduling_targets_hwschmode_when_elevated() {
    let action = build_action("gpu_hardware_scheduling", &windows(true)).unwrap();
    if let ConfigAction::Executable(ReversibleAction::RegistryHklmDword { subkey, name, new, .. }) = action {
        assert!(subkey.ends_with("GraphicsDrivers"));
        assert_eq!(name, "HwSchMode");
        assert_eq!(new, Some(2));
    } else {
        panic!("HAGS elevado deve ser RegistryHklmDword");
    }
}

#[test]
fn timer_resolution_is_unsupported() {
    let action = build_action("timer_resolution", &windows(false)).unwrap();
    assert!(matches!(action, ConfigAction::Unsupported { .. }));
}

#[test]
fn cpu_core_parking_is_unsupported() {
    let action = build_action("cpu_core_parking", &windows(false)).unwrap();
    assert!(matches!(action, ConfigAction::Unsupported { .. }));
}

#[test]
fn hpet_is_unsupported() {
    let action = build_action("hpet", &windows(false)).unwrap();
    assert!(matches!(action, ConfigAction::Unsupported { .. }));
}

#[test]
fn removed_memory_standby_flush_is_unrecognized() {
    let action = build_action("memory_standby_flush", &windows(false)).unwrap();
    assert!(matches!(action, ConfigAction::Unsupported { .. }));
}

#[test]
fn unknown_config_is_unsupported() {
    let action = build_action("totally_unknown_config_xyz", &windows(false)).unwrap();
    assert!(matches!(action, ConfigAction::Unsupported { .. }));
}

#[test]
fn no_known_config_returns_err() {
    let configs = [
        "power_plan_high_performance",
        "power_plan_balanced",
        "power_plan_power_saver",
        "gpu_hardware_scheduling",
        "timer_resolution",
        "cpu_core_parking",
        "hpet",
        "visual_effects_gaming",
    ];
    for elevated in [false, true] {
        for id in configs {
            assert!(build_action(id, &windows(elevated)).is_ok(), "config '{id}' não deve retornar Err");
        }
    }
}

#[test]
fn missing_plan_is_unsupported_with_reason() {
    let action = build_action("power_plan_power_saver", &windows(false)).unwrap();
    match action {
        ConfigAction::Unsupported { reason } => {
            assert_eq!(reason, "plano de energia não disponível nesta instalação (powercfg /list)")
        }
        _ => panic!("esperado Unsupported"),
    }
}

#[test]
fn unreadable_active_plan_is_an_error() {
    let mut st = windows(false);
    st.active_scheme = Err("powercfg: falhou".into());
    let err = build_action("power_plan_balanced", &st).err().unwrap();
    assert_eq!(err, "falha ao ler plano de energia ativo: powercfg: falhou");
}

#[test]
fn visual_effects_captures_old_value() {
    let action = build_action("visual_effects_gaming", &windows(false)).unwrap();
    match action {
        ConfigAction::Executable(ReversibleAction::RegistryHkcuDword { name, old, new, .. }) => {
            assert_eq!(name, "VisualFXSetting");
            assert_eq!(old, Some(0));
            assert_eq!(new, Some(2));
        }
        _ => panic!("esperado RegistryHkcuDword"),
    }
}
