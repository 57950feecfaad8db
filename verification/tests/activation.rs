use tkspeed::profiles::{activation_record, apply_failure_message, verify_failure_message};
use tkspeed::rollback::RollbackError;
use tkspeed::contracts::PerfVerdict;
use tkspeed::decisions::{measure_message, measure_outcome, reverts_profile, MeasureOutcome, VerdictRow};
use tkspeed::profiles::{
    activation_message, deactivation_target, get_profile, plan_activation, ProfileStateRow,
    SystemState, GUID_BALANCED, GUID_HIGH_PERF,
};
use tkspeed::rollback::ReversibleAction;

fn state(elevated: bool) -> SystemState {
    SystemState {
        elevated,
        power_schemes: vec![GUID_BALANCED.to_string(), GUID_HIGH_PERF.to_string()],
        active_scheme: Ok(GUID_BALANCED.to_string()),
        hags_mode: Ok(None),
        visual_fx: Ok(Some(0)),
    }
}

#[test]
fn get_profile_finds_bundled_and_rejects_unknown() {
    let p = get_profile("streaming").unwrap();
    assert_eq!(p.id, "streaming");
    assert_eq!(p.name, "Energia Equilibrada");
    let e = get_profile("nonexistent").unwrap_err();
    assert_eq!(e, "Perfil 'nonexistent' não encontrado.");
}

#[test]
fn competitive_plan_without_elevation_skips_hags() {
    let p = get_profile("competitive").unwrap();
    let plan = plan_activation(&p, &state(false)).unwrap();
    assert_eq!(plan.applied, vec!["power_plan_high_performance".to_string()]);
    assert_eq!(plan.skipped, vec!["gpu_hardware_scheduling".to_string()]);
    assert!(!plan.pending_reboot, "skipped HAGS must not mark a reboot");
    assert_eq!(plan.actions.len(), 1);
    match &plan.actions[0] {
        ReversibleAction::PowerPlan { old_guid, new_guid } => {
            assert_eq!(old_guid, GUID_BALANCED);
            assert_eq!(new_guid, GUID_HIGH_PERF);
        }
        other => panic!("unexpected {other:?}"),
    }
}

#[test]
fn competitive_plan_with_elevation_needs_reboot() {
    let p = get_profile("competitive").unwrap();
    let plan = plan_activation(&p, &state(true)).unwrap();
    assert_eq!(
        plan.applied,
        vec!["gpu_hardware_scheduling".to_string(), "power_plan_high_performance".to_string()]
    );
    assert!(plan.skipped.is_empty());
    assert!(plan.pending_reboot);
    assert!(matches!(
        &plan.actions[0],
        ReversibleAction::RegistryHklmDword { name, old: None, new: Some(2), .. } if name == "HwSchMode"
    ));
}

#[test]
fn power_saver_plan_skips_unlisted_scheme() {
    let p = get_profile("power_saver").unwrap();
    let plan = plan_activation(&p, &state(false)).unwrap();
    assert!(plan.applied.is_empty());
    assert_eq!(plan.skipped, vec!["power_plan_power_saver".to_string()]);
    assert!(plan.actions.is_empty());
    assert_eq!(
        activation_message(plan.pending_reboot, !plan.applied.is_empty()),
        "Perfil registrado. Implementações pendentes para esta versão."
    );
}

#[test]
fn failed_read_stops_the_plan_with_its_message() {
    let p = get_profile("balanced").unwrap();
    let mut st = state(true);
    st.hags_mode = Err("acesso negado".into());
    let e = plan_activation(&p, &st).unwrap_err();
    assert_eq!(e, "Falha ao preparar gpu_hardware_scheduling: falha ao ler HwSchMode (HKLM): acesso negado");
}

#[test]
fn activation_messages() {
    assert_eq!(activation_message(true, true), "Perfil ativo. Reinicialização necessária para algumas configurações.");
    assert_eq!(activation_message(false, true), "Perfil ativo.");
}

#[test]
fn deactivation_needs_an_active_profile() {
    let none = ProfileStateRow {
        user_context: "default".into(),
        profile_id: None,
        activated_at: None,
        snapshot_id: None,
        pending_reboot: false,
    };
    assert_eq!(deactivation_target(&none), Err("Nenhum perfil ativo no momento."));
    let active = ProfileStateRow { profile_id: Some("balanced".into()), snapshot_id: Some(7), ..none.clone() };
    assert_eq!(deactivation_target(&active), Ok(Some(7)));
}

fn row(metric: &str, verdict: PerfVerdict) -> VerdictRow {
    VerdictRow { metric: metric.into(), verdict }
}

#[test]
fn measurement_outcomes() {
    let gain = vec![row("ram_bandwidth_gbs", PerfVerdict::Loss), row("cpu_multi", PerfVerdict::Gain)];
    assert_eq!(measure_outcome(false, true, &gain), MeasureOutcome::Success { row: 1 });
    assert_eq!(measure_outcome(true, true, &gain), MeasureOutcome::PendingReboot);
    assert_eq!(measure_outcome(false, false, &gain), MeasureOutcome::Inconclusive);
    let loss = vec![row("cpu_single", PerfVerdict::NoChange)];
    let o = measure_outcome(false, true, &loss);
    assert_eq!(o, MeasureOutcome::Failure);
    assert!(reverts_profile(o));
    assert_eq!(measure_message(o), Some("Resultado negativo — perfil revertido automaticamente."));
    let unstable = vec![row("cpu_multi", PerfVerdict::Unstable)];
    assert_eq!(measure_outcome(false, true, &unstable), MeasureOutcome::Inconclusive);
    assert_eq!(measure_outcome(false, true, &[]), MeasureOutcome::Inconclusive);
    assert!(!reverts_profile(MeasureOutcome::Inconclusive));
    assert_eq!(measure_message(MeasureOutcome::Success { row: 0 }), None);
}

#[test]
fn preview_competitive_has_correct_configs() {
    let preview = tkspeed::profiles::preview("competitive").unwrap();
    let ids: Vec<&str> = preview.configs.iter().map(|c| c.config_id.as_str()).collect();
    assert!(ids.contains(&"gpu_hardware_scheduling"));
    assert!(ids.contains(&"power_plan_high_performance"));
    assert!(!ids.contains(&"timer_resolution"), "timer_resolution (Unsupported) não deve mais estar em Competitive");
}

#[test]
fn preview_competitive_requires_reboot() {
    let preview = tkspeed::profiles::preview("competitive").unwrap();
    assert!(preview.requires_reboot, "competitive tem gpu_hardware_scheduling que exige reboot");
}

#[test]
fn preview_streaming_no_reboot() {
    let preview = tkspeed::profiles::preview("streaming").unwrap();
    assert!(!preview.requires_reboot, "streaming não tem configs que exigem reboot");
}

#[test]
fn preview_power_saver_no_reboot() {
    let preview = tkspeed::profiles::preview("power_saver").unwrap();
    assert!(!preview.requires_reboot);
}

#[test]
fn preview_has_benchmark_relevance() {
    let preview = tkspeed::profiles::preview("competitive").unwrap();
    assert!(!preview.benchmark_relevance.is_empty());
}

#[test]
fn preview_unknown_profile_errors() {
    assert!(tkspeed::profiles::preview("nonexistent").is_err());
}

#[test]
fn preview_relevance_is_sorted_union_and_risk_is_highest() {
    let preview = tkspeed::profiles::preview("competitive").unwrap();
    assert_eq!(preview.benchmark_relevance, vec!["cpu_multi", "cpu_single", "fps", "frame_time"]);
    assert_eq!(preview.configs[0].benchmark_relevance, vec!["fps", "frame_time"]);
    assert_eq!(preview.profile_id, "competitive");
    assert_eq!(preview.name, "Competitive FPS");
    let saver = tkspeed::profiles::preview("power_saver").unwrap();
    assert_eq!(saver.benchmark_relevance, vec!["cpu_single"]);
    assert_eq!(saver.max_risk, "safe");
}

#[test]
fn activation_rolls_back_on_failed_apply_or_verify() {
    assert_eq!(apply_failure_message(&Ok(())), None);
    assert_eq!(
        apply_failure_message(&Err(RollbackError::Platform("acesso negado".into()))),
        Some("Falha ao aplicar ações do perfil: registro: acesso negado".to_string())
    );
    assert_eq!(verify_failure_message(&Ok(true)), None);
    let msg = Some("Verificação falhou após aplicação do perfil.".to_string());
    assert_eq!(verify_failure_message(&Ok(false)), msg);
    assert_eq!(verify_failure_message(&Err(RollbackError::Platform("x".into()))), msg);
}

#[test]
fn activation_record_keeps_the_previous_profile() {
    let cur = ProfileStateRow {
        user_context: "default".into(),
        profile_id: Some("balanced".into()),
        activated_at: Some(1),
        snapshot_id: Some(3),
        pending_reboot: false,
    };
    let r = activation_record("competitive", &cur, 8, "fp", true, 1234);
    assert_eq!(r.ts, 1234);
    assert_eq!(r.user_context, "default");
    assert_eq!(r.profile_id, "competitive");
    assert_eq!(r.from_profile_id, Some("balanced".to_string()));
    assert_eq!(r.snapshot_id, 8);
    assert_eq!(r.machine_fingerprint, Some("fp".to_string()));
    assert!(r.pending_reboot);
    assert_eq!(r.source, "profile_activation");
}
