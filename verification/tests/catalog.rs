use tkspeed::catalog::{
    catalog, catalog_info, get, startup_items, AdapterReading, AmdUlpsDisable, CatalogEntry,
    FileCleanup, FoundFile, HklmDwordOpt, InterfaceReading, MemoryStandbyClean, MouseAccelOff,
    NetworkTcpAckFrequency, Optimization, PowerPlanHigh, PowerPlanStep, RegistryToggle, Validation,
    VisualEffectsGaming, CATALOG_LEN, HIGH_PERF_GUID, ULTIMATE_PERF_GUID,
};
use tkspeed::rollback::ReversibleAction;

fn dirs() -> Vec<String> {
    vec!["C:\\Temp".to_string(), "C:\\Users\\u\\AppData\\Local\\Temp".to_string()]
}

#[test]
fn catalog_has_every_optimization_once() {
    let all = catalog(&dirs());
    assert_eq!(all.len(), CATALOG_LEN);
    assert_eq!(CATALOG_LEN, 34);
    let mut ids: Vec<String> = all.iter().map(|o| o.meta().id).collect();
    ids.sort();
    ids.dedup();
    assert_eq!(ids.len(), CATALOG_LEN);
}

#[test]
fn catalog_info_matches_catalog_metadata() {
    let info = catalog_info();
    let all = catalog(&[]);
    assert_eq!(info.len(), all.len());
    for (i, o) in all.iter().enumerate() {
        assert_eq!(info[i].id, o.meta().id);
        assert_eq!(info[i].risk, o.meta().risk);
    }
    assert_eq!(info[0].id, "energy.power_plan_high");
    assert_eq!(info[33].id, "network.tcp_ack_frequency");
}

#[test]
fn get_finds_by_id() {
    let e = get("game.hags_enable", &dirs()).expect("HAGS está no catálogo");
    let m = e.meta();
    assert_eq!(m.id, "game.hags_enable");
    assert_eq!(m.category, "game");
    assert!(m.requires_elevation);
    assert!(m.requires_reboot);
    assert!(get("does.not.exist", &dirs()).is_none());
}

#[test]
fn cleanups_are_validated_by_space_freed() {
    for o in catalog(&dirs()) {
        let space = matches!(o.validation(), Validation::SpaceFreed);
        let cleanup = matches!(o, CatalogEntry::FileCleanup(_) | CatalogEntry::MemoryStandbyClean(_));
        assert_eq!(space, cleanup, "{}", o.meta().id);
    }
}

#[test]
fn risk_is_safe_or_moderate() {
    for m in catalog_info() {
        assert!(m.risk == "Safe" || m.risk == "Moderate", "{} {}", m.id, m.risk);
    }
}

#[test]
fn cleanup_meta_and_preview() {
    let c = FileCleanup::wu_cache();
    let m = c.meta();
    assert_eq!(m.risk, "Moderate");
    assert_eq!(m.category, "cleanup");
    let t = FileCleanup::temp_files(&dirs());
    assert_eq!(t.meta().risk, "Safe");
    let p = t.preview();
    assert_eq!(p.changes, vec!["Varredura: C:\\Temp".to_string(), "Varredura: C:\\Users\\u\\AppData\\Local\\Temp".to_string()]);
}

#[test]
fn cleanup_plan_names_quarantine_files() {
    let t = FileCleanup::old_logs(&dirs());
    let found = vec![
        FoundFile { path: "C:\\Temp\\a.log".into(), file_name: Some("a.log".into()), size: 10 },
        FoundFile { path: "C:\\Temp\\x".into(), file_name: None, size: 5 },
    ];
    let plan = t.plan_from(&found, "Q").unwrap();
    assert_eq!(plan.len(), 2);
    match &plan[1] {
        ReversibleAction::FileQuarantine { original, quarantine, size } => {
            assert_eq!(original, "C:\\Temp\\x");
            assert_eq!(quarantine, "Q\\1_f");
            assert_eq!(*size, 5);
        }
        _ => panic!(),
    }
}

#[test]
fn cleanup_plan_stops_at_limit() {
    let t = FileCleanup::wu_cache();
    let found: Vec<FoundFile> = (0..4005)
        .map(|i| FoundFile { path: format!("p{i}"), file_name: Some(format!("f{i}")), size: 1 })
        .collect();
    assert_eq!(t.plan_from(&found, "Q").unwrap().len(), 4000);
}

#[test]
fn toggle_preview_and_plan() {
    let g = RegistryToggle::game_mode();
    assert_eq!(g.preview().summary, "HKCU\\Software\\Microsoft\\GameBar\\AutoGameModeEnabled = 1");
    let plan = g.plan_from(&Ok(Some(0))).unwrap();
    assert!(matches!(&plan[0], ReversibleAction::RegistryHkcuDword { old: Some(0), new: Some(1), .. }));
    assert_eq!(g.plan_from(&Err("negado".into())).err().unwrap(), "negado");
}

#[test]
fn visual_effects_already_set_is_an_error() {
    let v = VisualEffectsGaming;
    assert_eq!(v.plan_from(&Ok(Some(2))).err().unwrap(), "Já configurado para desempenho.");
    assert_eq!(v.plan_from(&Ok(None)).unwrap().len(), 1);
}

#[test]
fn hklm_options_need_elevation() {
    let e = get("network.throttling_disable", &[]).unwrap();
    if let CatalogEntry::HklmDwordOpt(o) = e {
        let opt: HklmDwordOpt = o;
        assert_eq!(opt.plan_from(false, &Ok(None)).err().unwrap(), "Requer administrador para alterar configurações do sistema (HKLM).");
        assert_eq!(opt.plan_from(true, &Ok(Some(0xFFFFFFFF))).err().unwrap(), "Network throttling já desativado.");
        let plan = opt.plan_from(true, &Ok(Some(10))).unwrap();
        assert!(matches!(&plan[0], ReversibleAction::RegistryHklmDword { new: Some(0xFFFFFFFF), .. }));
        assert_eq!(opt.preview().summary, "HKLM\\SOFTWARE\\Microsoft\\Windows NT\\CurrentVersion\\Multimedia\\SystemProfile\\NetworkThrottlingIndex = 4294967295");
    } else {
        panic!("esperado HklmDwordOpt");
    }
}

#[test]
fn standby_purge_needs_elevation_and_shows_memory() {
    let m = MemoryStandbyClean;
    assert!(m.plan_from(false).is_err());
    assert!(matches!(m.plan_from(true).unwrap()[0], ReversibleAction::MemoryStandbyFlush));
    assert_eq!(m.preview(3 * 1024 * 1024 + 5).summary, "Liberar standby list (~3 MB disponível agora)");
}

#[test]
fn mouse_acceleration_plan() {
    let m = MouseAccelOff;
    let zero: Result<Option<String>, String> = Ok(Some("0".into()));
    assert_eq!(m.plan_from(&zero, &zero, &zero).err().unwrap(), "Aceleração do mouse já desativada.");
    let one: Result<Option<String>, String> = Ok(Some("1".into()));
    let plan = m.plan_from(&one, &zero, &Ok(None)).unwrap();
    assert_eq!(plan.len(), 3);
    assert_eq!(m.plan_from(&Err("e1".into()), &Err("e2".into()), &zero).err().unwrap(), "e1");
}

#[test]
fn power_plan_steps() {
    let p = PowerPlanHigh;
    let old: Result<String, String> = Ok("381b4222-f694-41f0-9685-ff5bb260df2e".into());
    match p.plan_start(&old, &Some("abc".into())) {
        PowerPlanStep::Done(Ok(v)) => assert!(matches!(&v[0], ReversibleAction::PowerPlan { new_guid, .. } if new_guid == "abc")),
        other => panic!("{other:?}"),
    }
    match p.plan_start(&old, &None) {
        PowerPlanStep::Ensure(g) => assert_eq!(g, ULTIMATE_PERF_GUID),
        other => panic!("{other:?}"),
    }
    match p.plan_after_ensure("x", ULTIMATE_PERF_GUID, false) {
        PowerPlanStep::Ensure(g) => assert_eq!(g, HIGH_PERF_GUID),
        other => panic!("{other:?}"),
    }
    assert!(matches!(p.plan_after_ensure(HIGH_PERF_GUID, HIGH_PERF_GUID, true), PowerPlanStep::Done(Err(_))));
    assert!(matches!(p.plan_after_ensure("x", HIGH_PERF_GUID, false), PowerPlanStep::Done(Err(_))));
}

#[test]
fn amd_ulps_changes_only_amd_adapters() {
    let mut adapters: Vec<AdapterReading> = (0..16)
        .map(|_| AdapterReading { driver_desc: Ok(None), enable_ulps: Ok(None) })
        .collect();
    adapters[0] = AdapterReading { driver_desc: Ok(Some("AMD Radeon RX 6800".into())), enable_ulps: Ok(Some(1)) };
    adapters[1] = AdapterReading { driver_desc: Ok(Some("NVIDIA GeForce".into())), enable_ulps: Ok(Some(1)) };
    adapters[11] = AdapterReading { driver_desc: Ok(Some("Radeon Pro".into())), enable_ulps: Ok(None) };
    let vendors = vec!["AMD".to_string()];
    let plan = AmdUlpsDisable.plan_from(&vendors, true, &adapters).unwrap();
    assert_eq!(plan.len(), 2);
    match &plan[1] {
        ReversibleAction::RegistryHklmDword { subkey, name, old, new } => {
            assert!(subkey.ends_with("\\0011"));
            assert_eq!(name, "EnableUlps");
            assert_eq!(*old, None);
            assert_eq!(*new, Some(0));
        }
        _ => panic!(),
    }
    assert!(AmdUlpsDisable.plan_from(&[], true, &adapters).is_err());
}

#[test]
fn tcp_ack_applies_to_interfaces_with_address() {
    let ifaces = vec![
        InterfaceReading { guid: "{A}".into(), dhcp_ip: Ok(Some("192.168.0.2".into())), ip: Ok(None), ack_frequency: Ok(None) },
        InterfaceReading { guid: "{B}".into(), dhcp_ip: Ok(None), ip: Ok(Some("0.0.0.0".into())), ack_frequency: Ok(None) },
        InterfaceReading { guid: "{C}".into(), dhcp_ip: Ok(None), ip: Ok(Some("10.0.0.1".into())), ack_frequency: Ok(Some(1)) },
    ];
    let plan = NetworkTcpAckFrequency.plan_from(true, &Ok(ifaces)).unwrap();
    assert_eq!(plan.len(), 1);
    match &plan[0] {
        ReversibleAction::RegistryHklmDword { subkey, .. } => assert!(subkey.ends_with("Interfaces\\{A}")),
        _ => panic!(),
    }
    assert_eq!(
        NetworkTcpAckFrequency.plan_from(true, &Ok(vec![])).err().unwrap(),
        "Nenhuma interface TCP detectada no registro."
    );
}

#[test]
fn startup_items_keep_fields() {
    let items = startup_items(vec![("OneDrive".into(), "c.exe".into(), "HKCU\\Run".into())]);
    assert_eq!(items.len(), 1);
    assert_eq!(items[0].name, "OneDrive");
    assert_eq!(items[0].command, "c.exe");
    assert_eq!(items[0].location, "HKCU\\Run");
}

#[test]
fn cleanup_selects_by_extension_and_age() {
    let logs = FileCleanup::old_logs(&["C:\\Temp".to_string()]);
    assert!(logs.selects_file("LOG", Some(8 * 86_400)));
    assert!(logs.selects_file("etl", Some(7 * 86_400)));
    assert!(!logs.selects_file("log", Some(7 * 86_400 - 1)));
    assert!(!logs.selects_file("txt", Some(30 * 86_400)));
    assert!(!logs.selects_file("", Some(30 * 86_400)));
    assert!(!logs.selects_file("log", None));
    let wu = FileCleanup::wu_cache();
    assert!(wu.selects_file("", None));
    assert!(wu.selects_file("bin", Some(0)));
    let temp = FileCleanup::temp_files(&[]);
    assert!(temp.selects_file("tmp", Some(86_400)));
    assert!(!temp.selects_file("tmp", Some(100)));
    assert_eq!(FileCleanup::subdir_depth(2), Some(1));
    assert_eq!(FileCleanup::subdir_depth(0), None);
}

#[test]
fn catalog_info_describes_the_catalog_for_any_directories() {
    let info = tkspeed::catalog::catalog_info();
    let all = tkspeed::catalog::catalog(&["D:\\tmp".to_string()]);
    assert_eq!(info.len(), all.len());
    for (i, e) in info.iter().zip(all.iter()) {
        let m = e.meta();
        assert_eq!(i.id, m.id);
        assert_eq!(i.name, m.name);
        assert_eq!(i.requires_elevation, m.requires_elevation);
    }
}

#[test]
fn cleanup_quarantine_paths_are_distinct_for_same_names() {
    let t = FileCleanup::temp_files(&["C:\\Temp".to_string()]);
    let found: Vec<FoundFile> = (0..12)
        .map(|i| FoundFile { path: format!("C:\\Temp\\d{i}\\1_a"), file_name: Some("1_a".into()), size: 1 })
        .collect();
    let plan = t.plan_from(&found, "Q").unwrap();
    let mut paths: Vec<String> = plan
        .iter()
        .map(|a| match a {
            ReversibleAction::FileQuarantine { quarantine, .. } => quarantine.clone(),
            _ => panic!("not a quarantine"),
        })
        .collect();
    assert_eq!(paths[1], "Q\\1_1_a");
    assert_eq!(paths[11], "Q\\11_1_a");
    paths.sort();
    paths.dedup();
    assert_eq!(paths.len(), 12);
}
