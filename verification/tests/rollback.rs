use tkspeed::rollback::{restore_confirmed, rollback_next, RollbackNext};
use tkspeed::rollback::{apply_step, integrity_matches, protection_status, rollback_outcome, selftest_report, ApplyStep};
use tkspeed::rollback::{
    action_to_entry, actions_to_entries, integrity, restore_step, split_key, step, verify_actions,
    Observation, RestoreStep, ReversibleAction, RollbackError,
};
use tkspeed::storage::SnapshotEntryRow;

fn entry(key: &str, old: &str) -> SnapshotEntryRow {
    SnapshotEntryRow {
        target_type: "registry".into(),
        target_key: key.into(),
        old_value_json: Some(old.into()),
        new_value_json: None,
    }
}

#[test]
fn integrity_is_deterministic_and_sensitive() {
    let a = [entry("A\\B", "{\"value\":\"x\"}")];
    let b = [entry("A\\B", "{\"value\":\"x\"}")];
    assert_eq!(integrity(&a), integrity(&b), "mesmas entradas → mesmo hash");

    let c = [entry("A\\B", "{\"value\":\"y\"}")];
    assert_ne!(integrity(&a), integrity(&c), "valor diferente → hash diferente");

    let d = [entry("A\\C", "{\"value\":\"x\"}")];
    assert_ne!(integrity(&a), integrity(&d), "chave diferente → hash diferente");
}

#[test]
fn integrity_is_16_hex_digits_and_ignores_new_value() {
    let a = [entry("K", "{}")];
    let mut other = entry("K", "{}");
    other.target_type = "power".into();
    other.new_value_json = Some("{\"guid\":\"x\"}".into());
    let h = integrity(&a);
    assert_eq!(h.len(), 16);
    assert!(h.chars().all(|c| c.is_ascii_hexdigit() && !c.is_ascii_uppercase()));
    assert_eq!(h, integrity(&[other]));
    let mut none = entry("K", "{}");
    none.old_value_json = None;
    assert_ne!(integrity(&[none]), h);
}

#[test]
fn registry_entry_records_json_values() {
    let e = action_to_entry(&ReversibleAction::RegistryHkcu {
        subkey: "Control Panel\\Desktop".into(),
        name: "MenuShowDelay".into(),
        old: Some("400".into()),
        new: None,
    });
    assert_eq!(e.target_type, "registry");
    assert_eq!(e.target_key, "Control Panel\\Desktop\\MenuShowDelay");
    assert_eq!(e.old_value_json.as_deref(), Some("{\"value\":\"400\"}"));
    assert_eq!(e.new_value_json.as_deref(), Some("{\"value\":null}"));
}

#[test]
fn dword_power_and_file_entries() {
    let d = action_to_entry(&ReversibleAction::RegistryHkcuDword {
        subkey: "S".into(),
        name: "N".into(),
        old: None,
        new: Some(4294967295),
    });
    assert_eq!(d.target_type, "registry_dword");
    assert_eq!(d.old_value_json.as_deref(), Some("{\"value\":null}"));
    assert_eq!(d.new_value_json.as_deref(), Some("{\"value\":4294967295}"));

    let p = action_to_entry(&ReversibleAction::PowerPlan { old_guid: "a".into(), new_guid: "b".into() });
    assert_eq!(p.target_type, "power");
    assert_eq!(p.target_key, "active_scheme");
    assert_eq!(p.old_value_json.as_deref(), Some("{\"guid\":\"a\"}"));

    let f = action_to_entry(&ReversibleAction::FileQuarantine {
        original: "C:\\t\\x.log".into(),
        quarantine: "Q\\0_x.log".into(),
        size: 10,
    });
    assert_eq!(f.target_type, "file");
    assert_eq!(f.target_key, "C:\\t\\x.log");
    assert_eq!(f.old_value_json.as_deref(), Some("{\"quarantine\":\"Q\\\\0_x.log\",\"size\":10}"));
    assert!(f.new_value_json.is_none());
}

#[test]
fn json_string_values_are_escaped() {
    let e = action_to_entry(&ReversibleAction::RegistryHklmString {
        subkey: "S".into(),
        name: "N".into(),
        old: Some("a\"b".into()),
        new: Some("High".into()),
    });
    assert_eq!(e.target_type, "registry_hklm");
    assert_eq!(e.old_value_json.as_deref(), Some("{\"value\":\"a\\\"b\"}"));
    assert_eq!(e.new_value_json.as_deref(), Some("{\"value\":\"High\"}"));
}

#[test]
fn entries_follow_actions_in_order() {
    let es = actions_to_entries(&[ReversibleAction::MemoryStandbyFlush, ReversibleAction::PowerPlan { old_guid: "a".into(), new_guid: "b".into() }]);
    assert_eq!(es.len(), 2);
    assert_eq!(es[0].target_type, "memory");
    assert_eq!(es[1].target_type, "power");
}

#[test]
fn split_key_at_last_backslash() {
    assert_eq!(split_key("Control Panel\\Desktop\\MenuShowDelay"), ("Control Panel\\Desktop", "MenuShowDelay"));
    assert_eq!(split_key("NoBackslash"), ("", "NoBackslash"));
    assert_eq!(split_key("A\\"), ("A", ""));
}

#[test]
fn self_test_step_keeps_fields() {
    let s = step("Rollback", "ok", true);
    assert_eq!(s.name, "Rollback");
    assert_eq!(s.detail, "ok");
    assert!(s.ok);
}

#[test]
fn verify_actions_checks_new_state() {
    let actions = [
        ReversibleAction::RegistryHkcu { subkey: "S".into(), name: "N".into(), old: None, new: Some("0".into()) },
        ReversibleAction::PowerPlan { old_guid: "a".into(), new_guid: "b".into() },
        ReversibleAction::FileQuarantine { original: "o".into(), quarantine: "q".into(), size: 1 },
    ];
    let ok = [
        Observation::Text(Ok(Some("0".into()))),
        Observation::ActiveScheme(Some("b".into())),
        Observation::Nothing,
    ];
    assert!(matches!(verify_actions(&actions, &ok), Ok(true)));
    let wrong_plan = [
        Observation::Text(Ok(Some("0".into()))),
        Observation::ActiveScheme(Some("a".into())),
        Observation::Nothing,
    ];
    assert!(matches!(verify_actions(&actions, &wrong_plan), Ok(false)));
    let read_error = [
        Observation::Text(Err("acesso negado".into())),
        Observation::ActiveScheme(Some("b".into())),
        Observation::Nothing,
    ];
    match verify_actions(&actions, &read_error) {
        Err(RollbackError::Platform(m)) => assert_eq!(m, "acesso negado"),
        other => panic!("inesperado: {other:?}"),
    }
}

fn restored(a: &ReversibleAction) -> Result<RestoreStep, RollbackError> {
    restore_step(&action_to_entry(a))
}

#[test]
fn restore_writes_back_old_registry_text() {
    let a = ReversibleAction::RegistryHkcu {
        subkey: "Control Panel\\Desktop".into(),
        name: "MenuShowDelay".into(),
        old: Some("400".into()),
        new: Some("0".into()),
    };
    match restored(&a) {
        Ok(RestoreStep::RegistryText { hklm, subkey, name, value }) => {
            assert!(!hklm);
            assert_eq!(subkey, "Control Panel\\Desktop");
            assert_eq!(name, "MenuShowDelay");
            assert_eq!(value, Some("400".to_string()));
        }
        other => panic!("unexpected {other:?}"),
    }
}

#[test]
fn restore_hklm_text_with_quotes_round_trips() {
    let a = ReversibleAction::RegistryHklmString {
        subkey: "SOFTWARE\\X".into(),
        name: "Path".into(),
        old: Some("C:\\a \"b\"".into()),
        new: None,
    };
    match restored(&a) {
        Ok(RestoreStep::RegistryText { hklm, subkey, name, value }) => {
            assert!(hklm);
            assert_eq!(subkey, "SOFTWARE\\X");
            assert_eq!(name, "Path");
            assert_eq!(value, Some("C:\\a \"b\"".to_string()));
        }
        other => panic!("unexpected {other:?}"),
    }
}

#[test]
fn restore_deletes_dword_that_was_absent() {
    let a = ReversibleAction::RegistryHklmDword {
        subkey: "SYSTEM\\CurrentControlSet\\Control\\GraphicsDrivers".into(),
        name: "HwSchMode".into(),
        old: None,
        new: Some(2),
    };
    match restored(&a) {
        Ok(RestoreStep::RegistryDword { hklm, subkey, name, value }) => {
            assert!(hklm);
            assert_eq!(subkey, "SYSTEM\\CurrentControlSet\\Control\\GraphicsDrivers");
            assert_eq!(name, "HwSchMode");
            assert_eq!(value, None);
        }
        other => panic!("unexpected {other:?}"),
    }
}

#[test]
fn restore_hkcu_dword_old_value() {
    let a = ReversibleAction::RegistryHkcuDword {
        subkey: "Control Panel\\Mouse".into(),
        name: "MouseSpeed".into(),
        old: Some(4294967295),
        new: Some(0),
    };
    match restored(&a) {
        Ok(RestoreStep::RegistryDword { hklm, value, .. }) => {
            assert!(!hklm);
            assert_eq!(value, Some(4294967295));
        }
        other => panic!("unexpected {other:?}"),
    }
}

#[test]
fn restore_power_plan_and_file() {
    let p = ReversibleAction::PowerPlan {
        old_guid: "381b4222-f694-41f0-9685-ff5bb260df2e".into(),
        new_guid: "8c5e7fda-e8bf-4a96-9a85-a6e23a8c635c".into(),
    };
    match restored(&p) {
        Ok(RestoreStep::PowerPlan { guid }) => assert_eq!(guid, "381b4222-f694-41f0-9685-ff5bb260df2e"),
        other => panic!("unexpected {other:?}"),
    }
    let f = ReversibleAction::FileQuarantine {
        original: "C:\\Temp\\a,\"size\":1.log".into(),
        quarantine: "C:\\Q\\a,\"size\":1.log".into(),
        size: 1234,
    };
    match restored(&f) {
        Ok(RestoreStep::File { quarantine, original }) => {
            assert_eq!(quarantine, "C:\\Q\\a,\"size\":1.log");
            assert_eq!(original, "C:\\Temp\\a,\"size\":1.log");
        }
        other => panic!("unexpected {other:?}"),
    }
    assert!(matches!(restored(&ReversibleAction::MemoryStandbyFlush), Ok(RestoreStep::Nothing)));
}

#[test]
fn restore_defaults_and_errors() {
    let power = SnapshotEntryRow {
        target_type: "power".into(),
        target_key: "active_scheme".into(),
        old_value_json: None,
        new_value_json: None,
    };
    match restore_step(&power) {
        Ok(RestoreStep::PowerPlan { guid }) => assert_eq!(guid, ""),
        other => panic!("unexpected {other:?}"),
    }
    let file = SnapshotEntryRow {
        target_type: "file".into(),
        target_key: "C:\\x".into(),
        old_value_json: None,
        new_value_json: None,
    };
    match restore_step(&file) {
        Ok(RestoreStep::File { quarantine, original }) => {
            assert_eq!(quarantine, "");
            assert_eq!(original, "C:\\x");
        }
        other => panic!("unexpected {other:?}"),
    }
    let reg_null = entry("A\\B", "{\"value\":null}");
    assert!(matches!(restore_step(&reg_null), Ok(RestoreStep::RegistryText { value: None, .. })));
    let bad = entry("A\\B", "{\"value\":5}");
    assert!(matches!(restore_step(&bad), Err(RollbackError::Json(_))));
    let bad_dword = SnapshotEntryRow {
        target_type: "registry_dword".into(),
        target_key: "A\\B".into(),
        old_value_json: Some("{\"value\":\"5\"}".into()),
        new_value_json: None,
    };
    assert!(matches!(restore_step(&bad_dword), Err(RollbackError::Json(_))));
    let other = SnapshotEntryRow {
        target_type: "service".into(),
        target_key: "X".into(),
        old_value_json: None,
        new_value_json: None,
    };
    assert!(matches!(restore_step(&other), Ok(RestoreStep::Nothing)));
}

#[test]
fn apply_steps_write_the_new_state() {
    let a = ReversibleAction::RegistryHklmDword { subkey: "S".into(), name: "N".into(), old: Some(1), new: Some(2) };
    assert!(matches!(apply_step(&a), ApplyStep::RegistryDword { hklm: true, value: Some(2), .. }));
    let p = ReversibleAction::PowerPlan { old_guid: "a".into(), new_guid: "b".into() };
    assert!(matches!(apply_step(&p), ApplyStep::PowerPlan { guid } if guid == "b"));
    let f = ReversibleAction::FileQuarantine { original: "o".into(), quarantine: "q".into(), size: 7 };
    assert!(matches!(apply_step(&f), ApplyStep::Quarantine { original, quarantine, size: 7 } if original == "o" && quarantine == "q"));
    let d = ReversibleAction::RegistryHkcu { subkey: "S".into(), name: "N".into(), old: Some("x".into()), new: None };
    assert!(matches!(apply_step(&d), ApplyStep::RegistryText { hklm: false, value: None, .. }));
    assert!(matches!(apply_step(&ReversibleAction::MemoryStandbyFlush), ApplyStep::FlushStandby));
}

#[test]
fn rollback_gates_and_reports() {
    let es = [entry("A\\B", "{\"value\":\"x\"}")];
    let h = integrity(&es);
    assert!(integrity_matches(&es, &h));
    assert!(!integrity_matches(&es, "0000000000000000"));
    let o = rollback_outcome(3, 2);
    assert_eq!((o.snapshot_id, o.restored, o.ok), (3, 2, true));
    assert_eq!(o.message, "Estado restaurado e verificado com sucesso.");
    assert_eq!(protection_status(0), "Sem snapshots");
    assert_eq!(protection_status(4), "Protegido");
    let r = selftest_report(vec![step("a", "", true), step("b", "", false)]);
    assert!(!r.passed);
    assert!(selftest_report(vec![step("a", "", true)]).passed);
    assert!(selftest_report(vec![]).passed);
}

#[test]
fn rollback_next_gates_then_restores_in_order() {
    let es = [entry("A\\B", "{\"value\":\"x\"}"), entry("C\\D", "{\"value\":null}")];
    let h = integrity(&es);
    assert!(matches!(rollback_next(9, &es, "0000000000000000", 0), RollbackNext::Abort(RollbackError::Integrity)));
    match rollback_next(9, &es, &h, 0) {
        RollbackNext::Restore { index: 0, step: RestoreStep::RegistryText { subkey, name, value, .. } } => {
            assert_eq!((subkey.as_str(), name.as_str(), value), ("A", "B", Some("x".to_string())));
        }
        other => panic!("unexpected {other:?}"),
    }
    assert!(matches!(rollback_next(9, &es, &h, 1), RollbackNext::Restore { index: 1, step: RestoreStep::RegistryText { value: None, .. } }));
    match rollback_next(9, &es, &h, 2) {
        RollbackNext::Complete(o) => assert_eq!((o.snapshot_id, o.restored, o.ok), (9, 2, true)),
        other => panic!("unexpected {other:?}"),
    }
    let bad = [entry("A\\B", "{\"value\":5}")];
    let hb = integrity(&bad);
    assert!(matches!(rollback_next(1, &bad, &hb, 0), RollbackNext::Abort(RollbackError::Json(m)) if m == "valor de registro inválido"));
}

#[test]
fn restore_is_confirmed_by_reading_back() {
    let s = RestoreStep::RegistryText { hklm: false, subkey: "A".into(), name: "B".into(), value: Some("x".into()) };
    assert!(restore_confirmed(&s, "A\\B", &Observation::Text(Ok(Some("x".into())))).is_ok());
    assert!(matches!(restore_confirmed(&s, "A\\B", &Observation::Text(Ok(None))), Err(RollbackError::Validation(m)) if m == "registry A\\B"));
    assert!(matches!(restore_confirmed(&s, "A\\B", &Observation::Text(Err("negado".into()))), Err(RollbackError::Platform(m)) if m == "negado"));
    let d = RestoreStep::RegistryDword { hklm: true, subkey: "A".into(), name: "B".into(), value: None };
    assert!(restore_confirmed(&d, "A\\B", &Observation::Dword(Ok(None))).is_ok());
    assert!(matches!(restore_confirmed(&d, "A\\B", &Observation::Dword(Ok(Some(1)))), Err(RollbackError::Validation(m)) if m == "registry_dword A\\B"));
    let p = RestoreStep::PowerPlan { guid: "g".into() };
    assert!(restore_confirmed(&p, "active_scheme", &Observation::ActiveScheme(Some("g".into()))).is_ok());
    assert!(matches!(restore_confirmed(&p, "active_scheme", &Observation::ActiveScheme(None)), Err(RollbackError::Validation(m)) if m == "plano de energia não confirmado"));
    let f = RestoreStep::File { quarantine: "q".into(), original: "o".into() };
    assert!(restore_confirmed(&f, "o", &Observation::Nothing).is_ok());
}

#[test]
fn restoring_twice_writes_the_same() {
    let e = entry("Control Panel\\Desktop\\MenuShowDelay", "{\"value\":\"400\"}");
    let a = format!("{:?}", restore_step(&e));
    let b = format!("{:?}", restore_step(&e));
    assert_eq!(a, b);
}

#[test]
fn rollback_error_messages() {
    assert_eq!(RollbackError::Platform("x".into()).message(), "registro: x");
    assert_eq!(RollbackError::NotFound(-12).message(), "snapshot -12 não encontrado");
    assert_eq!(RollbackError::NotFound(7).message(), "snapshot 7 não encontrado");
    assert_eq!(RollbackError::Integrity.message(), "integridade do snapshot inválida");
    assert_eq!(RollbackError::Validation("v".into()).message(), "validação falhou: v");
    assert_eq!(RollbackError::Json("j".into()).message(), "j");
}

#[test]
fn verification_passes_only_when_all_in_effect() {
    let acts = vec![
        ReversibleAction::RegistryHkcu { subkey: "S".into(), name: "N".into(), old: None, new: Some("1".into()) },
        ReversibleAction::PowerPlan { old_guid: "a".into(), new_guid: "b".into() },
        ReversibleAction::FileQuarantine { original: "o".into(), quarantine: "q".into(), size: 1 },
    ];
    let read_back = vec![
        Observation::Text(Ok(Some("1".into()))),
        Observation::ActiveScheme(Some("b".into())),
        Observation::Nothing,
    ];
    assert!(matches!(verify_actions(&acts, &read_back), Ok(true)));
    let changed = vec![
        Observation::Text(Ok(Some("1".into()))),
        Observation::ActiveScheme(Some("a".into())),
        Observation::Nothing,
    ];
    assert!(matches!(verify_actions(&acts, &changed), Ok(false)));
}

#[test]
fn restore_reads_old_json_with_whitespace_between_tokens() {
    match restore_step(&entry("A\\B", "{ \"value\" : \"x y\" }")) {
        Ok(RestoreStep::RegistryText { value, .. }) => assert_eq!(value, Some("x y".to_string())),
        other => panic!("unexpected {other:?}"),
    }
    assert!(matches!(restore_step(&entry("A\\B", "{\"value\": null}")), Ok(RestoreStep::RegistryText { value: None, .. })));
    let dword = SnapshotEntryRow {
        target_type: "registry_dword".into(),
        target_key: "A\\B".into(),
        old_value_json: Some("{\n  \"value\": 5\n}".into()),
        new_value_json: None,
    };
    assert!(matches!(restore_step(&dword), Ok(RestoreStep::RegistryDword { value: Some(5), .. })));
    let power = SnapshotEntryRow {
        target_type: "power".into(),
        target_key: "active_scheme".into(),
        old_value_json: Some("{ \"guid\": \"abc\" }".into()),
        new_value_json: None,
    };
    assert!(matches!(restore_step(&power), Ok(RestoreStep::PowerPlan { guid }) if guid == "abc"));
    let file = SnapshotEntryRow {
        target_type: "file".into(),
        target_key: "C:\\o".into(),
        old_value_json: Some("{\"quarantine\": \"C:\\\\q x\", \"size\": 3}".into()),
        new_value_json: None,
    };
    assert!(matches!(restore_step(&file), Ok(RestoreStep::File { quarantine, .. }) if quarantine == "C:\\q x"));
}

#[test]
fn json_string_escapes_control_characters() {
    let e = action_to_entry(&ReversibleAction::RegistryHkcu {
        subkey: "S".into(),
        name: "N".into(),
        old: Some("a\tb\u{1}\\é\n".into()),
        new: None,
    });
    assert_eq!(e.old_value_json.as_deref(), Some("{\"value\":\"a\\tb\\u0001\\\\é\\n\"}"));
    assert_eq!(e.new_value_json.as_deref(), Some("{\"value\":null}"));
}
