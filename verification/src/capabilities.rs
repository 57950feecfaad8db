//! Capability matrix: which parts of TkSpeed can work on this machine.
//!
//! The matrix is an open list of `Capability { id, status, detail }` (new
//! capabilities are new ids, not new types). The detection itself (hardware
//! snapshot, elevation, PresentMon lookup) is done by the caller and handed in
//! as a `CapabilityProbe`; this module decides the status of each capability.

use vstd::prelude::*;

use crate::text::{all_distinct, lemma_heads_differ, owned};

verus! {

/// Status: the capability works fully.
pub const STATUS_READY: &'static str = "ready";

/// Status: the capability works with reduced scope.
pub const STATUS_LIMITED: &'static str = "limited";

/// Status: a software prerequisite is absent.
pub const STATUS_MISSING: &'static str = "missing";

/// Status: the hardware does not support it.
pub const STATUS_UNAVAILABLE: &'static str = "unavailable";

/// One capability of the system, detected at run time.
#[derive(Debug, Clone)]
pub struct Capability {
    pub id: String,
    /// "ready" | "limited" | "missing" | "unavailable"
    pub status: String,
    pub detail: String,
}

/// What the environment offers, as detected by the caller.
#[derive(Debug, Clone, Copy, PartialEq, Eq, Structural)]
pub struct CapabilityProbe {
    /// An NVIDIA GPU answered through NVML.
    pub gpu_nvml: bool,
    /// A CPU temperature sensor is readable.
    pub cpu_temp: bool,
    /// The PresentMon executable was found.
    pub presentmon: bool,
    /// The process runs elevated (administrator).
    pub elevated: bool,
}

/// A capability as plain character sequences: (id, status, detail).
pub type CapabilityView = (Seq<char>, Seq<char>, Seq<char>);

impl Capability {
    /// The capability as plain character sequences.
    pub open spec fn view_triple(self) -> CapabilityView {
        (self.id@, self.status@, self.detail@)
    }

    pub fn new(id: &str, status: &str, detail: &str) -> (c: Self)
        ensures
            c.view_triple() == (id@, status@, detail@),
    {
        Capability { id: owned(id), status: owned(status), detail: owned(detail) }
    }
}

/// The four valid statuses.
pub open spec fn valid_statuses() -> Seq<Seq<char>> {
    seq![STATUS_READY@, STATUS_LIMITED@, STATUS_MISSING@, STATUS_UNAVAILABLE@]
}

/// The ten capability ids, in matrix order.
pub open spec fn capability_ids() -> Seq<Seq<char>> {
    seq![
        "cpu_monitoring"@,
        "ram_monitoring"@,
        "storage_monitoring"@,
        "gpu_monitoring"@,
        "thermal_monitoring"@,
        "fps_measurement"@,
        "rollback_protection"@,
        "benchmark_engine"@,
        "optimization_engine"@,
        "admin_privileges"@,
    ]
}

/// Status and detail of GPU monitoring.
pub open spec fn gpu_entry(p: CapabilityProbe) -> (Seq<char>, Seq<char>) {
    if p.gpu_nvml {
        (STATUS_READY@, "NVML disponível"@)
    } else {
        (STATUS_UNAVAILABLE@, "GPU não-NVIDIA ou NVML indisponível"@)
    }
}

/// Status and detail of thermal monitoring.
pub open spec fn thermal_entry(p: CapabilityProbe) -> (Seq<char>, Seq<char>) {
    if p.cpu_temp {
        (STATUS_READY@, "sysinfo"@)
    } else {
        (STATUS_LIMITED@, "sensores não disponíveis neste hardware"@)
    }
}

/// Status and detail of FPS measurement: PresentMon is needed, and ETW
/// tracing needs elevation.
pub open spec fn fps_entry(p: CapabilityProbe) -> (Seq<char>, Seq<char>) {
    if !p.presentmon {
        (STATUS_MISSING@, "PresentMon ausente"@)
    } else if !p.elevated {
        (STATUS_LIMITED@, "PresentMon presente; admin necessário para ETW"@)
    } else {
        (STATUS_READY@, "PresentMon + elevação OK"@)
    }
}

/// Status and detail of administrator privileges.
pub open spec fn admin_entry(p: CapabilityProbe) -> (Seq<char>, Seq<char>) {
    if p.elevated {
        (STATUS_READY@, "processo elevado"@)
    } else {
        (STATUS_MISSING@, "sem elevação — configs avançadas indisponíveis"@)
    }
}

/// The whole matrix for a probe, in order.
pub open spec fn expected_matrix(p: CapabilityProbe) -> Seq<CapabilityView> {
    seq![
        ("cpu_monitoring"@, STATUS_READY@, "sysinfo"@),
        ("ram_monitoring"@, STATUS_READY@, "sysinfo"@),
        ("storage_monitoring"@, STATUS_READY@, "sysinfo"@),
        ("gpu_monitoring"@, gpu_entry(p).0, gpu_entry(p).1),
        ("thermal_monitoring"@, thermal_entry(p).0, thermal_entry(p).1),
        ("fps_measurement"@, fps_entry(p).0, fps_entry(p).1),
        ("rollback_protection"@, STATUS_READY@, "snapshot + rollback disponíveis"@),
        ("benchmark_engine"@, STATUS_READY@, "tk-perflab"@),
        ("optimization_engine"@, STATUS_READY@, "tk-optimize"@),
        ("admin_privileges"@, admin_entry(p).0, admin_entry(p).1),
    ]
}

/// Builds the capability matrix from what the caller detected.
pub fn build(probe: &CapabilityProbe) -> (caps: Vec<Capability>)
    ensures
        caps@.len() == 10,
        forall|i: int| 0 <= i < 10 ==> #[trigger] caps@[i].view_triple() == expected_matrix(*probe)[i],
{
    let gpu: (&str, &str) = if probe.gpu_nvml {
        (STATUS_READY, "NVML disponível")
    } else {
        (STATUS_UNAVAILABLE, "GPU não-NVIDIA ou NVML indisponível")
    };
    let thermal: (&str, &str) = if probe.cpu_temp {
        (STATUS_READY, "sysinfo")
    } else {
        (STATUS_LIMITED, "sensores não disponíveis neste hardware")
    };
    let fps: (&str, &str) = if !probe.presentmon {
        (STATUS_MISSING, "PresentMon ausente")
    } else if !probe.elevated {
        (STATUS_LIMITED, "PresentMon presente; admin necessário para ETW")
    } else {
        (STATUS_READY, "PresentMon + elevação OK")
    };
    let admin: (&str, &str) = if probe.elevated {
        (STATUS_READY, "processo elevado")
    } else {
        (STATUS_MISSING, "sem elevação — configs avançadas indisponíveis")
    };
    let mut caps: Vec<Capability> = Vec::new();
    caps.push(Capability::new("cpu_monitoring", STATUS_READY, "sysinfo"));
    caps.push(Capability::new("ram_monitoring", STATUS_READY, "sysinfo"));
    caps.push(Capability::new("storage_monitoring", STATUS_READY, "sysinfo"));
    caps.push(Capability::new("gpu_monitoring", gpu.0, gpu.1));
    caps.push(Capability::new("thermal_monitoring", thermal.0, thermal.1));
    caps.push(Capability::new("fps_measurement", fps.0, fps.1));
    caps.push(Capability::new("rollback_protection", STATUS_READY, "snapshot + rollback disponíveis"));
    caps.push(Capability::new("benchmark_engine", STATUS_READY, "tk-perflab"));
    caps.push(Capability::new("optimization_engine", STATUS_READY, "tk-optimize"));
    caps.push(Capability::new("admin_privileges", admin.0, admin.1));
    caps
}

// ───────────────────────── Laws ─────────────────────────

/// The matrix lists exactly the ten capability ids, in order, whatever the probe.
pub proof fn lemma_matrix_ids(p: CapabilityProbe)
    ensures
        expected_matrix(p).len() == capability_ids().len(),
        forall|i: int| 0 <= i < 10 ==> #[trigger] expected_matrix(p)[i].0 == capability_ids()[i],
{
}

/// No two capabilities share an id.
pub proof fn lemma_capability_ids_distinct()
    ensures
        all_distinct(capability_ids()),
        capability_ids().len() == 10,
{
    reveal_strlit("cpu_monitoring");
    reveal_strlit("ram_monitoring");
    reveal_strlit("storage_monitoring");
    reveal_strlit("gpu_monitoring");
    reveal_strlit("thermal_monitoring");
    reveal_strlit("fps_measurement");
    reveal_strlit("rollback_protection");
    reveal_strlit("benchmark_engine");
    reveal_strlit("optimization_engine");
    reveal_strlit("admin_privileges");
    let ids = capability_ids();
    assert forall|i: int, j: int| 0 <= i < j < ids.len() implies ids[i] != ids[j] by {
        lemma_heads_differ(ids[i], ids[j]);
    }
}

/// Every status of the matrix is one of the four valid statuses, and every
/// detail is non-empty.
pub proof fn lemma_statuses_valid_details_nonempty(p: CapabilityProbe)
    ensures
        forall|i: int|
            0 <= i < 10 ==> valid_statuses().contains(#[trigger] expected_matrix(p)[i].1),
        forall|i: int| 0 <= i < 10 ==> (#[trigger] expected_matrix(p)[i]).2.len() > 0,
{
    reveal_strlit("sysinfo");
    reveal_strlit("NVML disponível");
    reveal_strlit("GPU não-NVIDIA ou NVML indisponível");
    reveal_strlit("sensores não disponíveis neste hardware");
    reveal_strlit("PresentMon ausente");
    reveal_strlit("PresentMon presente; admin necessário para ETW");
    reveal_strlit("PresentMon + elevação OK");
    reveal_strlit("processo elevado");
    reveal_strlit("sem elevação — configs avançadas indisponíveis");
    reveal_strlit("snapshot + rollback disponíveis");
    reveal_strlit("tk-perflab");
    reveal_strlit("tk-optimize");
    let m = expected_matrix(p);
    let v = valid_statuses();
    assert(v[0] == STATUS_READY@);
    assert(v[1] == STATUS_LIMITED@);
    assert(v[2] == STATUS_MISSING@);
    assert(v[3] == STATUS_UNAVAILABLE@);
    assert forall|i: int| 0 <= i < 10 implies v.contains(#[trigger] m[i].1) by {
        if m[i].1 == STATUS_READY@ {
            assert(v[0] == m[i].1);
        } else if m[i].1 == STATUS_LIMITED@ {
            assert(v[1] == m[i].1);
        } else if m[i].1 == STATUS_MISSING@ {
            assert(v[2] == m[i].1);
        } else {
            assert(v[3] == m[i].1);
        }
    }
}

/// CPU, RAM and storage monitoring, rollback protection, the benchmark engine
/// and the optimization engine are always ready.
pub proof fn lemma_core_capabilities_ready(p: CapabilityProbe)
    ensures
        expected_matrix(p)[0].1 == STATUS_READY@,
        expected_matrix(p)[1].1 == STATUS_READY@,
        expected_matrix(p)[2].1 == STATUS_READY@,
        expected_matrix(p)[6].1 == STATUS_READY@,
        expected_matrix(p)[7].1 == STATUS_READY@,
        expected_matrix(p)[8].1 == STATUS_READY@,
{
}

/// "unavailable" is kept for hardware and "missing" for absent software:
/// FPS measurement is never unavailable, GPU monitoring is never missing,
/// administrator privileges are either ready or missing, and FPS measurement
/// is missing exactly when PresentMon is absent.
pub proof fn lemma_status_vocabulary(p: CapabilityProbe)
    ensures
        expected_matrix(p)[5].1 != STATUS_UNAVAILABLE@,
        expected_matrix(p)[3].1 != STATUS_MISSING@,
        expected_matrix(p)[9].1 == STATUS_READY@ || expected_matrix(p)[9].1 == STATUS_MISSING@,
        expected_matrix(p)[5].1 == STATUS_MISSING@ <==> !p.presentmon,
        expected_matrix(p)[9].1 == STATUS_READY@ <==> p.elevated,
{
    reveal_strlit("ready");
    reveal_strlit("limited");
    reveal_strlit("missing");
    reveal_strlit("unavailable");
    lemma_heads_differ(STATUS_MISSING@, STATUS_UNAVAILABLE@);
    lemma_heads_differ(STATUS_READY@, STATUS_UNAVAILABLE@);
    lemma_heads_differ(STATUS_LIMITED@, STATUS_UNAVAILABLE@);
    lemma_heads_differ(STATUS_READY@, STATUS_MISSING@);
    lemma_heads_differ(STATUS_LIMITED@, STATUS_MISSING@);
}

/// Each probed capability follows its own reading and nothing else: GPU
/// monitoring is ready exactly when NVML answers, thermal monitoring exactly
/// when a CPU temperature is readable (through sysinfo), FPS measurement
/// exactly when PresentMon is present and the process is elevated,
/// administrator privileges exactly when elevated; two probes that agree on a
/// capability's own reading give that capability the same entry.
pub proof fn lemma_capability_follows_its_probe(p: CapabilityProbe, q: CapabilityProbe)
    ensures
        expected_matrix(p)[3].1 == STATUS_READY@ <==> p.gpu_nvml,
        expected_matrix(p)[4].1 == STATUS_READY@ <==> p.cpu_temp,
        p.cpu_temp ==> expected_matrix(p)[4].2 == "sysinfo"@,
        expected_matrix(p)[5].1 == STATUS_READY@ <==> p.presentmon && p.elevated,
        expected_matrix(p)[9].1 == STATUS_READY@ <==> p.elevated,
        p.gpu_nvml == q.gpu_nvml ==> expected_matrix(p)[3] == expected_matrix(q)[3],
        p.cpu_temp == q.cpu_temp ==> expected_matrix(p)[4] == expected_matrix(q)[4],
        p.presentmon == q.presentmon && p.elevated == q.elevated ==> expected_matrix(p)[5] == expected_matrix(q)[5],
        p.elevated == q.elevated ==> expected_matrix(p)[9] == expected_matrix(q)[9],
{
    reveal_strlit("ready");
    reveal_strlit("limited");
    reveal_strlit("missing");
    reveal_strlit("unavailable");
    lemma_heads_differ(STATUS_READY@, STATUS_UNAVAILABLE@);
    lemma_heads_differ(STATUS_READY@, STATUS_MISSING@);
    lemma_heads_differ(STATUS_READY@, STATUS_LIMITED@);
}

} // verus!
