use tkspeed::configs::ConfigRegistry;
use tkspeed::engine::{
    config_info, config_run_action, not_found_message, optimize_snapshot_reason, resolve,
    startup_disable_action, startup_snapshot_reason, suite_run, RunTarget, SuiteRun, STARTUP_RUN_KEY,
};
use tkspeed::profiles::{SystemState, GUID_BALANCED};
use tkspeed::rollback::ReversibleAction;

#[test]
fn resolve_prefers_catalog_then_registry() {
    let dirs = vec!["C:\\Temp".to_string()];
    assert!(matches!(resolve("power_plan_balanced", &dirs), RunTarget::Config(m) if m.id == "power_plan_balanced"));
    assert!(matches!(resolve("nope", &dirs), RunTarget::NotFound));
    assert_eq!(not_found_message(), "Otimização não encontrada");
    let catalog_id = tkspeed::catalog::catalog_info()[0].id.clone();
    assert!(matches!(resolve(&catalog_id, &dirs), RunTarget::Catalog(_)));
}

#[test]
fn config_info_capitalizes_risk() {
    let registry = ConfigRegistry::new();
    let m = registry.find("hpet").unwrap().meta();
    let info = config_info(m);
    assert_eq!(info.id, "hpet");
    assert_eq!(info.expected_impact, info.description);
    assert_eq!(info.category, m.category.as_str());
    assert!(["Safe", "Moderate", "Advanced"].contains(&info.risk.as_str()));
}

fn state() -> SystemState {
    SystemState {
        elevated: false,
        power_schemes: vec![GUID_BALANCED.to_string()],
        active_scheme: Ok(GUID_BALANCED.to_string()),
        hags_mode: Ok(None),
        visual_fx: Err("negado".into()),
    }
}

#[test]
fn config_run_actions_and_reasons() {
    let st = state();
    assert!(matches!(config_run_action("power_plan_balanced", &st), Ok(ReversibleAction::PowerPlan { .. })));
    assert_eq!(config_run_action("hpet", &st).unwrap_err(), "requer bcdedit — não implementado nesta versão");
    assert_eq!(config_run_action("visual_effects_gaming", &st).unwrap_err(), "falha ao ler VisualFXSetting: negado");
}

#[test]
fn suites_and_reasons() {
    assert_eq!(suite_run("ram-1.0.0"), (SuiteRun::Ram, 5));
    assert_eq!(suite_run("io-1.0.0"), (SuiteRun::Io, 3));
    assert_eq!(suite_run("complete-1.0.0"), (SuiteRun::Complete, 3));
    assert_eq!(suite_run("cpu-1.0.0"), (SuiteRun::Cpu, 5));
    assert_eq!(startup_snapshot_reason("Discord"), "startup:disable:Discord");
    assert_eq!(optimize_snapshot_reason("hpet"), "optimize:hpet");
}

#[test]
fn startup_disable_keeps_the_command_for_rollback() {
    match startup_disable_action("Discord", Some("\"C:\\Discord.exe\" --start".into())) {
        Ok(ReversibleAction::RegistryHkcu { subkey, name, old, new }) => {
            assert_eq!(subkey, STARTUP_RUN_KEY);
            assert_eq!(name, "Discord");
            assert_eq!(old.as_deref(), Some("\"C:\\Discord.exe\" --start"));
            assert!(new.is_none());
        }
        other => panic!("unexpected {other:?}"),
    }
    assert!(startup_disable_action("X", None).is_err());
}

#[test]
fn unsupported_configuration_returns_the_adapter_reason() {
    let st = state();
    assert_eq!(config_run_action("timer_resolution", &st).unwrap_err(), "requer NtSetTimerResolution — não implementado nesta versão");
    assert_eq!(config_run_action("cpu_core_parking", &st).unwrap_err(), "requer powercfg de núcleos — não implementado nesta versão");
    assert_eq!(
        config_run_action("gpu_hardware_scheduling", &st).unwrap_err(),
        "requer privilégios de administrador (execute o TkSpeed como administrador)"
    );
    assert_eq!(
        config_run_action("power_plan_high_performance", &st).unwrap_err(),
        "plano de energia não disponível nesta instalação (powercfg /list)"
    );
    assert_eq!(config_run_action("unknown_config", &st).unwrap_err(), "config não reconhecida pelo executor");
    assert_ne!(config_run_action("hpet", &st).unwrap_err(), not_found_message());
}
