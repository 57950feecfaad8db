use tkspeed::capabilities::{build, Capability, CapabilityProbe};

const EXPECTED_IDS: &[&str] = &[
    "cpu_monitoring",
    "ram_monitoring",
    "storage_monitoring",
    "gpu_monitoring",
    "thermal_monitoring",
    "fps_measurement",
    "rollback_protection",
    "benchmark_engine",
    "optimization_engine",
    "admin_privileges",
];

const VALID_STATUSES: &[&str] = &["ready", "limited", "missing", "unavailable"];

/// Every combination of what the environment may offer.
fn all_probes() -> Vec<CapabilityProbe> {
    let mut v = Vec::new();
    for bits in 0..16u8 {
        v.push(CapabilityProbe {
            gpu_nvml: bits & 1 != 0,
            cpu_temp: bits & 2 != 0,
            presentmon: bits & 4 != 0,
            elevated: bits & 8 != 0,
        });
    }
    v
}

/// A machine without NVIDIA GPU, sensors, PresentMon or elevation.
fn bare_probe() -> CapabilityProbe {
    CapabilityProbe { gpu_nvml: false, cpu_temp: false, presentmon: false, elevated: false }
}

fn find<'a>(caps: &'a [Capability], id: &str) -> &'a Capability {
    caps.iter().find(|c| c.id == id).expect(id)
}

#[test]
fn has_ten_capabilities() {
    for p in all_probes() {
        assert_eq!(build(&p).len(), 10);
    }
}

#[test]
fn matrix_all_ids_are_unique() {
    for p in all_probes() {
        let caps = build(&p);
        let mut ids: Vec<&str> = caps.iter().map(|c| c.id.as_str()).collect();
        ids.sort_unstable();
        ids.dedup();
        assert_eq!(ids.len(), caps.len(), "IDs duplicados detectados");
    }
}

#[test]
fn all_expected_ids_present() {
    for p in all_probes() {
        let caps = build(&p);
        let ids: Vec<&str> = caps.iter().map(|c| c.id.as_str()).collect();
        for expected in EXPECTED_IDS {
            assert!(ids.contains(expected), "ID esperado ausente: {}", expected);
        }
    }
}

#[test]
fn all_statuses_are_valid() {
    for p in all_probes() {
        for c in &build(&p) {
            assert!(
                VALID_STATUSES.contains(&c.status.as_str()),
                "capability '{}' tem status inválido: '{}'",
                c.id,
                c.status
            );
        }
    }
}

#[test]
fn all_details_are_non_empty() {
    for p in all_probes() {
        for c in &build(&p) {
            assert!(!c.detail.is_empty(), "capability '{}' tem detail vazio", c.id);
        }
    }
}

#[test]
fn cpu_ram_storage_always_ready() {
    for p in all_probes() {
        let caps = build(&p);
        for id in ["cpu_monitoring", "ram_monitoring", "storage_monitoring"] {
            assert_eq!(find(&caps, id).status, "ready", "'{}' deve sempre ser ready", id);
        }
    }
}

#[test]
fn benchmark_and_optimization_engine_always_ready() {
    for p in all_probes() {
        let caps = build(&p);
        for id in ["benchmark_engine", "optimization_engine"] {
            assert_eq!(find(&caps, id).status, "ready", "'{}' deve sempre ser ready", id);
        }
    }
}

#[test]
fn rollback_protection_is_ready() {
    let c = build(&bare_probe()).into_iter().find(|c| c.id == "rollback_protection").unwrap();
    assert_eq!(c.status, "ready");
}

#[test]
fn fps_measurement_never_unavailable() {
    for p in all_probes() {
        let c = build(&p).into_iter().find(|c| c.id == "fps_measurement").unwrap();
        assert_ne!(c.status, "unavailable");
    }
}

#[test]
fn fps_measurement_missing_when_presentmon_absent() {
    let c = build(&bare_probe()).into_iter().find(|c| c.id == "fps_measurement").unwrap();
    assert_eq!(c.status, "missing", "fps_measurement deve ser 'missing' sem PresentMon");
}

#[test]
fn gpu_monitoring_never_missing() {
    for p in all_probes() {
        let c = build(&p).into_iter().find(|c| c.id == "gpu_monitoring").unwrap();
        assert_ne!(c.status, "missing");
    }
}

#[test]
fn admin_privileges_never_unavailable_or_limited() {
    for p in all_probes() {
        let c = build(&p).into_iter().find(|c| c.id == "admin_privileges").unwrap();
        assert!(c.status == "ready" || c.status == "missing", "status '{}'", c.status);
    }
}

#[test]
fn capability_struct_has_no_fixed_fields_per_id() {
    let caps = build(&bare_probe());
    for c in &caps {
        let _: &str = &c.id;
        let _: &str = &c.status;
        let _: &str = &c.detail;
    }
}

#[test]
fn fps_status_follows_presentmon_and_elevation() {
    let mut p = bare_probe();
    p.presentmon = true;
    assert_eq!(find(&build(&p), "fps_measurement").status, "limited");
    p.elevated = true;
    assert_eq!(find(&build(&p), "fps_measurement").status, "ready");
    assert_eq!(find(&build(&p), "admin_privileges").status, "ready");
}

#[test]
fn gpu_and_thermal_follow_the_probe() {
    let mut p = bare_probe();
    let caps = build(&p);
    assert_eq!(find(&caps, "gpu_monitoring").status, "unavailable");
    assert_eq!(find(&caps, "thermal_monitoring").status, "limited");
    p.gpu_nvml = true;
    p.cpu_temp = true;
    let caps = build(&p);
    assert_eq!(find(&caps, "gpu_monitoring").status, "ready");
    assert_eq!(find(&caps, "gpu_monitoring").detail, "NVML disponível");
    assert_eq!(find(&caps, "thermal_monitoring").status, "ready");
}

#[test]
fn capability_new_keeps_fields() {
    let c = Capability::new("x", "ready", "d");
    assert_eq!((c.id.as_str(), c.status.as_str(), c.detail.as_str()), ("x", "ready", "d"));
}
