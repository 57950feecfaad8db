//! Profiles: bundled definitions, the config-to-action adapter and the
//! benchmark suite of each profile.

use vstd::prelude::*;

use crate::configs::{config_ids, config_table, risk_key, risk_rank, ConfigMetaView, ConfigRegistry, ConfigRisk};
use crate::rollback::{rollback_error_text, ReversibleAction, RollbackError};
use crate::text::{all_distinct, concat2, insert_sorted, lemma_heads_differ, owned, str_eq, strictly_sorted, strings_of};

verus! {

// ───────────────────────── Model ─────────────────────────

/// One configuration inside a profile, with an optional value.
#[derive(Debug)]
pub struct CompositionEntry {
    pub config_id: String,
    /// Value to apply; `None` uses the configuration's default.
    pub value: Option<serde_json::Value>,
}

/// Definition of a profile (bundled or custom).
#[derive(Debug)]
pub struct ProfileDefinition {
    pub id: String,
    pub name: String,
    pub description: Option<String>,
    pub icon: Option<String>,
    pub is_custom: bool,
    pub compositions: Vec<CompositionEntry>,
    pub suite_id: String,
    pub requires_fps: bool,
    pub bundle_version: u32,
}

/// Preview of one configuration of a profile.
#[derive(Debug, Clone)]
pub struct ProfileConfigPreview {
    pub config_id: String,
    pub name: String,
    pub risk: String,
    pub reversible: bool,
    pub requires_reboot: bool,
    pub benchmark_relevance: Vec<String>,
}

/// Preview of a profile (nothing applied).
#[derive(Debug, Clone)]
pub struct ProfilePreview {
    pub profile_id: String,
    pub name: String,
    pub description: Option<String>,
    pub configs: Vec<ProfileConfigPreview>,
    pub requires_reboot: bool,
    pub max_risk: String,
    pub benchmark_relevance: Vec<String>,
}

/// Result of a profile activation.
#[derive(Debug, Clone)]
pub struct ActivationResult {
    pub activation_id: i64,
    pub profile_id: String,
    pub snapshot_id: i64,
    /// Configurations applied.
    pub applied_configs: Vec<String>,
    /// Configurations skipped (not supported in this version).
    pub skipped_configs: Vec<String>,
    pub pending_reboot: bool,
    pub message: String,
}

/// A stored profile state.
#[derive(Debug, Clone)]
pub struct ProfileStateRow {
    pub user_context: String,
    pub profile_id: Option<String>,
    pub activated_at: Option<i64>,
    pub snapshot_id: Option<i64>,
    pub pending_reboot: bool,
}

/// Data of a profile activation to store.
pub struct ActivationRow {
    pub ts: i64,
    pub user_context: String,
    pub profile_id: String,
    pub from_profile_id: Option<String>,
    pub snapshot_id: i64,
    pub machine_fingerprint: Option<String>,
    pub pending_reboot: bool,
    pub source: String,
}

/// Summary of a past activation.
#[derive(Debug, Clone)]
pub struct ActivationSummary {
    pub id: i64,
    pub ts: i64,
    pub profile_id: String,
    pub from_profile_id: Option<String>,
    pub pending_reboot: bool,
    pub source: String,
}

/// The stored key of a risk level, as a new string.
pub fn risk_str(r: &ConfigRisk) -> (s: String)
    ensures
        s@ == risk_key(*r),
{
    owned(r.as_str())
}

// ───────────────────────── Bundled profiles ─────────────────────────

fn entry(config_id: &str) -> (e: CompositionEntry)
    ensures
        e.config_id@ == config_id@,
        e.value is None,
{
    CompositionEntry { config_id: owned(config_id), value: None }
}

/// The configuration ids of a profile, in order.
pub open spec fn composition_ids(p: ProfileDefinition) -> Seq<Seq<char>> {
    p.compositions@.map_values(|c: CompositionEntry| c.config_id@)
}

/// Plain view of a profile's scalar fields: (id, suite, requires_fps, version).
pub open spec fn profile_key(p: ProfileDefinition) -> (Seq<char>, Seq<char>, bool, u32) {
    (p.id@, p.suite_id@, p.requires_fps, p.bundle_version)
}

/// What a profile shows of itself: (id, name, description, requires_fps); a
/// missing description reads as empty.
pub open spec fn profile_card(p: ProfileDefinition) -> (Seq<char>, Seq<char>, Seq<char>, bool) {
    (p.id@, p.name@, match p.description {
        Some(d) => d@,
        None => Seq::<char>::empty(),
    }, p.requires_fps)
}

/// The cards of the bundled profiles, in order.
pub open spec fn bundled_cards() -> Seq<(Seq<char>, Seq<char>, Seq<char>, bool)> {
    seq![
        ("competitive"@, "Competitive FPS"@, "Prioriza desempenho de GPU e CPU para FPS e frame time consistentes."@, true),
        ("balanced"@, "Balanced Gaming"@, "Equilibra desempenho, estabilidade e temperatura."@, false),
        ("streaming"@, "Energia Equilibrada"@, "Mantém o plano de energia Balanceado do Windows. Não altera GPU nem CPU."@, false),
        ("power_saver"@, "Power Saver"@, "Prioriza bateria e temperatura baixa."@, false),
    ]
}

/// Competitive FPS: frame time, FPS and input latency.
pub fn competitive() -> (p: ProfileDefinition)
    ensures
        profile_key(p) == ("competitive"@, "complete"@, true, 2u32),
        profile_card(p) == bundled_cards()[0],
        composition_ids(p) == seq!["gpu_hardware_scheduling"@, "power_plan_high_performance"@],
        !p.is_custom,
{
    let mut compositions: Vec<CompositionEntry> = Vec::new();
    compositions.push(entry("gpu_hardware_scheduling"));
    compositions.push(entry("power_plan_high_performance"));
    let p = ProfileDefinition {
        id: owned("competitive"),
        name: owned("Competitive FPS"),
        description: Some(
            owned("Prioriza desempenho de GPU e CPU para FPS e frame time consistentes."),
        ),
        icon: Some(owned("zap")),
        is_custom: false,
        compositions,
        suite_id: owned("complete"),
        requires_fps: true,
        bundle_version: 2,
    };
    assert(composition_ids(p) =~= seq!["gpu_hardware_scheduling"@, "power_plan_high_performance"@]);
    p
}

/// Balanced Gaming: stable FPS with controlled temperature.
pub fn balanced() -> (p: ProfileDefinition)
    ensures
        profile_key(p) == ("balanced"@, "complete"@, false, 1u32),
        profile_card(p) == bundled_cards()[1],
        composition_ids(p) == seq!["gpu_hardware_scheduling"@, "power_plan_balanced"@],
        !p.is_custom,
{
    let mut compositions: Vec<CompositionEntry> = Vec::new();
    compositions.push(entry("gpu_hardware_scheduling"));
    compositions.push(entry("power_plan_balanced"));
    let p = ProfileDefinition {
        id: owned("balanced"),
        name: owned("Balanced Gaming"),
        description: Some(owned("Equilibra desempenho, estabilidade e temperatura.")),
        icon: Some(owned("layers")),
        is_custom: false,
        compositions,
        suite_id: owned("complete"),
        requires_fps: false,
        bundle_version: 1,
    };
    assert(composition_ids(p) =~= seq!["gpu_hardware_scheduling"@, "power_plan_balanced"@]);
    p
}

/// Balanced Energy (historical id "streaming"): only the Windows balanced
/// power plan; GPU and CPU are left alone.
pub fn streaming() -> (p: ProfileDefinition)
    ensures
        profile_key(p) == ("streaming"@, "complete"@, false, 3u32),
        profile_card(p) == bundled_cards()[2],
        composition_ids(p) == seq!["power_plan_balanced"@],
        !p.is_custom,
{
    let mut compositions: Vec<CompositionEntry> = Vec::new();
    compositions.push(entry("power_plan_balanced"));
    let p = ProfileDefinition {
        id: owned("streaming"),
        name: owned("Energia Equilibrada"),
        description: Some(
            owned("Mantém o plano de energia Balanceado do Windows. Não altera GPU nem CPU."),
        ),
        icon: Some(owned("radio")),
        is_custom: false,
        compositions,
        suite_id: owned("complete"),
        requires_fps: false,
        bundle_version: 3,
    };
    assert(composition_ids(p) =~= seq!["power_plan_balanced"@]);
    p
}

/// Power Saver: battery and low temperature.
pub fn power_saver() -> (p: ProfileDefinition)
    ensures
        profile_key(p) == ("power_saver"@, "complete"@, false, 1u32),
        profile_card(p) == bundled_cards()[3],
        composition_ids(p) == seq!["power_plan_power_saver"@],
        !p.is_custom,
{
    let mut compositions: Vec<CompositionEntry> = Vec::new();
    compositions.push(entry("power_plan_power_saver"));
    let p = ProfileDefinition {
        id: owned("power_saver"),
        name: owned("Power Saver"),
        description: Some(owned("Prioriza bateria e temperatura baixa.")),
        icon: Some(owned("battery")),
        is_custom: false,
        compositions,
        suite_id: owned("complete"),
        requires_fps: false,
        bundle_version: 1,
    };
    assert(composition_ids(p) =~= seq!["power_plan_power_saver"@]);
    p
}

/// The configuration ids of the bundled profiles, in order.
pub open spec fn bundled_compositions() -> Seq<Seq<Seq<char>>> {
    seq![
        seq!["gpu_hardware_scheduling"@, "power_plan_high_performance"@],
        seq!["gpu_hardware_scheduling"@, "power_plan_balanced"@],
        seq!["power_plan_balanced"@],
        seq!["power_plan_power_saver"@],
    ]
}

/// The ids of the bundled profiles, in order.
pub open spec fn bundled_ids() -> Seq<Seq<char>> {
    seq!["competitive"@, "balanced"@, "streaming"@, "power_saver"@]
}

/// Every bundled profile.
pub fn all() -> (ps: Vec<ProfileDefinition>)
    ensures
        ps@.len() == 4,
        forall|i: int| 0 <= i < 4 ==> (#[trigger] ps@[i]).id@ == bundled_ids()[i],
        forall|i: int| 0 <= i < 4 ==> !(#[trigger] ps@[i]).is_custom,
        forall|i: int| 0 <= i < 4 ==> (#[trigger] ps@[i]).compositions@.len() > 0,
        ps@[0].requires_fps,
        !ps@[1].requires_fps && !ps@[2].requires_fps && !ps@[3].requires_fps,
        forall|i: int| 0 <= i < 4 ==> profile_card(#[trigger] ps@[i]) == bundled_cards()[i],
        forall|i: int| 0 <= i < 4 ==> composition_ids(#[trigger] ps@[i]) == bundled_compositions()[i],
{
    let mut ps: Vec<ProfileDefinition> = Vec::new();
    ps.push(competitive());
    ps.push(balanced());
    ps.push(streaming());
    ps.push(power_saver());
    assert(composition_ids(ps@[0]).len() == ps@[0].compositions@.len());
    assert(composition_ids(ps@[1]).len() == ps@[1].compositions@.len());
    assert(composition_ids(ps@[2]).len() == ps@[2].compositions@.len());
    assert(composition_ids(ps@[3]).len() == ps@[3].compositions@.len());
    ps
}

// ───────────────────────── Measurement suite ─────────────────────────

/// Benchmark suite used to measure a profile.
#[derive(Debug, Clone, Copy, PartialEq, Eq, Structural)]
pub enum Suite {
    /// Every sub-benchmark (cpu + ram + io): competitive and balanced.
    Complete,
    /// CPU only: streaming and power saver.
    Cpu,
}

/// The suite of a profile: the complete suite for competitive and balanced,
/// the CPU suite for every other profile.
pub fn suite_for(profile_id: &str) -> (s: Suite)
    ensures
        s == (if profile_id@ == "competitive"@ || profile_id@ == "balanced"@ {
            Suite::Complete
        } else {
            Suite::Cpu
        }),
{
    if str_eq(profile_id, "competitive") || str_eq(profile_id, "balanced") {
        Suite::Complete
    } else {
        Suite::Cpu
    }
}

/// Stored key of a suite.
pub fn suite_key(s: Suite) -> (k: &'static str)
    ensures
        s == Suite::Complete ==> k@ == "complete-1.0.0"@,
        s == Suite::Cpu ==> k@ == "cpu-1.0.0"@,
{
    match s {
        Suite::Complete => "complete-1.0.0",
        Suite::Cpu => "cpu-1.0.0",
    }
}

// ───────────────────────── Config execution adapter ─────────────────────────

/// GUID of the Windows high-performance power plan.
pub const GUID_HIGH_PERF: &'static str = "8c5e7fda-e8bf-4a96-9a85-a6e23a8c635c";

/// GUID of the Windows balanced power plan.
pub const GUID_BALANCED: &'static str = "381b4222-f694-41f0-9685-ff5bb260df2e";

/// GUID of the Windows power-saver plan.
pub const GUID_POWER_SAVER: &'static str = "a1841308-3541-4fab-bc81-f71556f20b4a";

/// HKLM key of hardware-accelerated GPU scheduling (needs elevation and reboot).
pub const HAGS_SUBKEY: &'static str = "SYSTEM\\CurrentControlSet\\Control\\GraphicsDrivers";

/// Value name of hardware-accelerated GPU scheduling.
pub const HAGS_NAME: &'static str = "HwSchMode";

/// `HwSchMode` value that enables it (1 disables; absent = driver default).
pub const HAGS_ON: u32 = 2;

/// HKCU key of the visual effects setting.
pub const VISUAL_FX_SUBKEY: &'static str =
    "Software\\Microsoft\\Windows\\CurrentVersion\\Explorer\\VisualEffects";

/// Value name of the visual effects setting.
pub const VISUAL_FX_NAME: &'static str = "VisualFXSetting";

/// What an attempt to build the action of a configuration gives.
#[derive(Debug, Clone)]
pub enum ConfigAction {
    /// A reversible action ready to apply.
    Executable(ReversibleAction),
    /// The configuration is not supported in this version.
    Unsupported { reason: &'static str },
}

/// The system state that the adapter reads: elevation, the power plans, and
/// the registry values it captures as the "before" state. Each read keeps its
/// error.
#[derive(Debug)]
pub struct SystemState {
    pub elevated: bool,
    /// GUIDs (lowercase) of the power plans listed by the system.
    pub power_schemes: Vec<String>,
    /// The active power plan.
    pub active_scheme: Result<String, String>,
    /// `HwSchMode` under HKLM.
    pub hags_mode: Result<Option<u32>, String>,
    /// `VisualFXSetting` under HKCU.
    pub visual_fx: Result<Option<u32>, String>,
}

/// Reason given when a power plan is not listed.
pub open spec fn reason_no_plan() -> Seq<char> {
    "plano de energia não disponível nesta instalação (powercfg /list)"@
}

/// Reason given for HAGS without elevation.
pub open spec fn reason_needs_admin() -> Seq<char> {
    "requer privilégios de administrador (execute o TkSpeed como administrador)"@
}

/// Whether the state lists the power plan `guid`.
pub open spec fn scheme_listed(st: SystemState, guid: Seq<char>) -> bool {
    exists|i: int| 0 <= i < st.power_schemes@.len() && (#[trigger] st.power_schemes@[i])@ == guid
}

/// The outcome owed for a power-plan configuration.
pub open spec fn power_plan_outcome(
    r: Result<ConfigAction, String>,
    st: SystemState,
    guid: Seq<char>,
) -> bool {
    if !scheme_listed(st, guid) {
        r matches Ok(ConfigAction::Unsupported { reason }) && reason@ == reason_no_plan()
    } else {
        match st.active_scheme {
            Ok(old) => r matches Ok(ConfigAction::Executable(ReversibleAction::PowerPlan { old_guid, new_guid }))
                && old_guid@ == old@ && new_guid@ == guid,
            Err(e) => r matches Err(msg) && msg@ == "falha ao ler plano de energia ativo: "@ + e@,
        }
    }
}

/// The outcome owed for hardware-accelerated GPU scheduling.
pub open spec fn hags_outcome(r: Result<ConfigAction, String>, st: SystemState) -> bool {
    if !st.elevated {
        r matches Ok(ConfigAction::Unsupported { reason }) && reason@ == reason_needs_admin()
    } else {
        match st.hags_mode {
            Ok(old) => r matches Ok(ConfigAction::Executable(ReversibleAction::RegistryHklmDword { subkey, name, old: o, new }))
                && subkey@ == HAGS_SUBKEY@ && name@ == HAGS_NAME@ && o == old && new == Some(HAGS_ON),
            Err(e) => r matches Err(msg) && msg@ == "falha ao ler HwSchMode (HKLM): "@ + e@,
        }
    }
}

/// The outcome owed for the visual effects configuration.
pub open spec fn visual_fx_outcome(r: Result<ConfigAction, String>, st: SystemState) -> bool {
    match st.visual_fx {
        Ok(old) => r matches Ok(ConfigAction::Executable(ReversibleAction::RegistryHkcuDword { subkey, name, old: o, new }))
            && subkey@ == VISUAL_FX_SUBKEY@ && name@ == VISUAL_FX_NAME@ && o == old && new == Some(2u32),
        Err(e) => r matches Err(msg) && msg@ == "falha ao ler VisualFXSetting: "@ + e@,
    }
}

/// Whether `r` is `Ok(Unsupported)` with the given reason.
pub open spec fn unsupported_with(r: Result<ConfigAction, String>, why: Seq<char>) -> bool {
    r matches Ok(ConfigAction::Unsupported { reason }) && reason@ == why
}

/// The ids that the adapter knows.
pub open spec fn known_config_ids() -> Seq<Seq<char>> {
    seq![
        "power_plan_high_performance"@,
        "power_plan_balanced"@,
        "power_plan_power_saver"@,
        "gpu_hardware_scheduling"@,
        "timer_resolution"@,
        "cpu_core_parking"@,
        "hpet"@,
        "visual_effects_gaming"@,
    ]
}

/// The ids known to the adapter are pairwise different.
proof fn lemma_known_ids_distinct()
    ensures
        all_distinct(known_config_ids()),
{
    reveal_strlit("power_plan_high_performance");
    reveal_strlit("power_plan_balanced");
    reveal_strlit("power_plan_power_saver");
    reveal_strlit("gpu_hardware_scheduling");
    reveal_strlit("timer_resolution");
    reveal_strlit("cpu_core_parking");
    reveal_strlit("hpet");
    reveal_strlit("visual_effects_gaming");
    let ids = known_config_ids();
    assert forall|i: int, j: int| 0 <= i < j < ids.len() implies ids[i] != ids[j] by {
        lemma_heads_differ(ids[i], ids[j]);
    }
}

fn scheme_exists(st: &SystemState, guid: &str) -> (b: bool)
    ensures
        b == scheme_listed(*st, guid@),
{
    let mut i: usize = 0;
    while i < st.power_schemes.len()
        invariant
            i <= st.power_schemes@.len(),
            forall|k: int| 0 <= k < i ==> (#[trigger] st.power_schemes@[k])@ != guid@,
        decreases st.power_schemes@.len() - i,
    {
        if str_eq(st.power_schemes[i].as_str(), guid) {
            return true;
        }
        i = i + 1;
    }
    false
}

fn power_plan(st: &SystemState, target_guid: &'static str) -> (r: Result<ConfigAction, String>)
    ensures
        power_plan_outcome(r, *st, target_guid@),
{
    if !scheme_exists(st, target_guid) {
        return Ok(
            ConfigAction::Unsupported {
                reason: "plano de energia não disponível nesta instalação (powercfg /list)",
            },
        );
    }
    match &st.active_scheme {
        Ok(old) => Ok(
            ConfigAction::Executable(
                ReversibleAction::PowerPlan { old_guid: owned(old.as_str()), new_guid: owned(target_guid) },
            ),
        ),
        Err(e) => Err(concat2("falha ao ler plano de energia ativo: ", e.as_str())),
    }
}

fn gpu_hardware_scheduling(st: &SystemState) -> (r: Result<ConfigAction, String>)
    ensures
        hags_outcome(r, *st),
{
    if !st.elevated {
        return Ok(
            ConfigAction::Unsupported {
                reason: "requer privilégios de administrador (execute o TkSpeed como administrador)",
            },
        );
    }
    match &st.hags_mode {
        Ok(old) => Ok(
            ConfigAction::Executable(
                ReversibleAction::RegistryHklmDword {
                    subkey: owned(HAGS_SUBKEY),
                    name: owned(HAGS_NAME),
                    old: *old,
                    new: Some(HAGS_ON),
                },
            ),
        ),
        Err(e) => Err(concat2("falha ao ler HwSchMode (HKLM): ", e.as_str())),
    }
}

fn visual_effects(st: &SystemState) -> (r: Result<ConfigAction, String>)
    ensures
        visual_fx_outcome(r, *st),
{
    match &st.visual_fx {
        Ok(old) => Ok(
            ConfigAction::Executable(
                ReversibleAction::RegistryHkcuDword {
                    subkey: owned(VISUAL_FX_SUBKEY),
                    name: owned(VISUAL_FX_NAME),
                    old: *old,
                    new: Some(2),
                },
            ),
        ),
        Err(e) => Err(concat2("falha ao ler VisualFXSetting: ", e.as_str())),
    }
}

/// The power plan that a power-plan configuration switches to.
pub open spec fn plan_guid(id: Seq<char>) -> Option<Seq<char>> {
    if id == "power_plan_high_performance"@ {
        Some(GUID_HIGH_PERF@)
    } else if id == "power_plan_balanced"@ {
        Some(GUID_BALANCED@)
    } else if id == "power_plan_power_saver"@ {
        Some(GUID_POWER_SAVER@)
    } else {
        None
    }
}

/// Whether the adapter yields an action for the configuration in this state.
pub open spec fn action_ready(id: Seq<char>, st: SystemState) -> bool {
    match plan_guid(id) {
        Some(g) => scheme_listed(st, g) && st.active_scheme is Ok,
        None => if id == "gpu_hardware_scheduling"@ {
            st.elevated && st.hags_mode is Ok
        } else if id == "visual_effects_gaming"@ {
            st.visual_fx is Ok
        } else {
            false
        },
    }
}

/// The reason given when the adapter does not support the configuration in
/// this state: a power plan that is not listed, HAGS without elevation, the
/// timer, core-parking and HPET configurations, and any unknown id.
pub open spec fn unsupported_reason(id: Seq<char>) -> Seq<char> {
    if plan_guid(id) is Some {
        reason_no_plan()
    } else if id == "gpu_hardware_scheduling"@ {
        reason_needs_admin()
    } else if id == "timer_resolution"@ {
        "requer NtSetTimerResolution — não implementado nesta versão"@
    } else if id == "cpu_core_parking"@ {
        "requer powercfg de núcleos — não implementado nesta versão"@
    } else if id == "hpet"@ {
        "requer bcdedit — não implementado nesta versão"@
    } else {
        "config não reconhecida pelo executor"@
    }
}

/// Whether reading the "before" value of the configuration failed.
pub open spec fn action_failed(id: Seq<char>, st: SystemState) -> bool {
    match plan_guid(id) {
        Some(g) => scheme_listed(st, g) && st.active_scheme is Err,
        None => if id == "gpu_hardware_scheduling"@ {
            st.elevated && st.hags_mode is Err
        } else if id == "visual_effects_gaming"@ {
            st.visual_fx is Err
        } else {
            false
        },
    }
}

/// The message of a failed "before" read.
pub open spec fn read_error(id: Seq<char>, st: SystemState) -> Seq<char> {
    if plan_guid(id) is Some {
        match st.active_scheme {
            Err(e) => "falha ao ler plano de energia ativo: "@ + e@,
            Ok(_) => Seq::<char>::empty(),
        }
    } else if id == "gpu_hardware_scheduling"@ {
        match st.hags_mode {
            Err(e) => "falha ao ler HwSchMode (HKLM): "@ + e@,
            Ok(_) => Seq::<char>::empty(),
        }
    } else {
        match st.visual_fx {
            Err(e) => "falha ao ler VisualFXSetting: "@ + e@,
            Ok(_) => Seq::<char>::empty(),
        }
    }
}

/// The action built for a ready configuration: the plan switch from the
/// active plan, HAGS on from its old mode, or the gaming visual effects from
/// their old setting.
pub open spec fn expected_action(id: Seq<char>, st: SystemState, a: ReversibleAction) -> bool {
    match plan_guid(id) {
        Some(g) => a matches ReversibleAction::PowerPlan { old_guid, new_guid } && (st.active_scheme matches Ok(old) && old_guid@ == old@) && new_guid@ == g,
        None => if id == "gpu_hardware_scheduling"@ {
            a matches ReversibleAction::RegistryHklmDword { subkey, name, old: o, new }
                && subkey@ == HAGS_SUBKEY@ && name@ == HAGS_NAME@ && (st.hags_mode matches Ok(old) && o == old) && new == Some(HAGS_ON)
        } else {
            a matches ReversibleAction::RegistryHkcuDword { subkey, name, old: o, new }
                && subkey@ == VISUAL_FX_SUBKEY@ && name@ == VISUAL_FX_NAME@ && (st.visual_fx matches Ok(old) && o == old) && new == Some(2u32)
        },
    }
}

/// Builds the reversible action of a configuration from the system state.
/// Power plans need the plan to be listed; HAGS needs elevation; the timer,
/// core-parking and HPET configurations are not supported yet; unknown ids are
/// unsupported. `Err` only when reading the "before" value failed.
pub fn build_action(config_id: &str, st: &SystemState) -> (r: Result<ConfigAction, String>)
    ensures
        config_id@ == "power_plan_high_performance"@ ==> power_plan_outcome(r, *st, GUID_HIGH_PERF@),
        config_id@ == "power_plan_balanced"@ ==> power_plan_outcome(r, *st, GUID_BALANCED@),
        config_id@ == "power_plan_power_saver"@ ==> power_plan_outcome(r, *st, GUID_POWER_SAVER@),
        config_id@ == "gpu_hardware_scheduling"@ ==> hags_outcome(r, *st),
        config_id@ == "timer_resolution"@ ==> unsupported_with(
            r,
            "requer NtSetTimerResolution — não implementado nesta versão"@,
        ),
        config_id@ == "cpu_core_parking"@ ==> unsupported_with(
            r,
            "requer powercfg de núcleos — não implementado nesta versão"@,
        ),
        config_id@ == "hpet"@ ==> unsupported_with(r, "requer bcdedit — não implementado nesta versão"@),
        config_id@ == "visual_effects_gaming"@ ==> visual_fx_outcome(r, *st),
        !known_config_ids().contains(config_id@) ==> unsupported_with(
            r,
            "config não reconhecida pelo executor"@,
        ),
        r is Err <==> action_failed(config_id@, *st),
        r matches Err(m) ==> m@ == read_error(config_id@, *st),
        (r matches Ok(ConfigAction::Executable(_))) <==> action_ready(config_id@, *st),
        r matches Ok(ConfigAction::Executable(a)) ==> expected_action(config_id@, *st, a),
        r matches Ok(ConfigAction::Unsupported { reason }) ==> reason@ == unsupported_reason(config_id@),
{
    proof {
        lemma_known_ids_distinct();
        let ids = known_config_ids();
        assert(ids[0] == "power_plan_high_performance"@);
        assert(ids[1] == "power_plan_balanced"@);
        assert(ids[2] == "power_plan_power_saver"@);
        assert(ids[3] == "gpu_hardware_scheduling"@);
        assert(ids[4] == "timer_resolution"@);
        assert(ids[5] == "cpu_core_parking"@);
        assert(ids[6] == "hpet"@);
        assert(ids[7] == "visual_effects_gaming"@);
    }
    if str_eq(config_id, "power_plan_high_performance") {
        power_plan(st, GUID_HIGH_PERF)
    } else if str_eq(config_id, "power_plan_balanced") {
        power_plan(st, GUID_BALANCED)
    } else if str_eq(config_id, "power_plan_power_saver") {
        power_plan(st, GUID_POWER_SAVER)
    } else if str_eq(config_id, "gpu_hardware_scheduling") {
        gpu_hardware_scheduling(st)
    } else if str_eq(config_id, "timer_resolution") {
        Ok(
            ConfigAction::Unsupported {
                reason: "requer NtSetTimerResolution — não implementado nesta versão",
            },
        )
    } else if str_eq(config_id, "cpu_core_parking") {
        Ok(
            ConfigAction::Unsupported {
                reason: "requer powercfg de núcleos — não implementado nesta versão",
            },
        )
    } else if str_eq(config_id, "hpet") {
        Ok(ConfigAction::Unsupported { reason: "requer bcdedit — não implementado nesta versão" })
    } else if str_eq(config_id, "visual_effects_gaming") {
        visual_effects(st)
    } else {
        assert(!known_config_ids().contains(config_id@)) by {
            let ids = known_config_ids();
            if ids.contains(config_id@) {
                let k = choose|k: int| 0 <= k < ids.len() && ids[k] == config_id@;
                assert(ids[k] != config_id@);
            }
        }
        Ok(ConfigAction::Unsupported { reason: "config não reconhecida pelo executor" })
    }
}

/// Whether `p` is the bundled profile `i`.
pub open spec fn is_bundled(p: ProfileDefinition, i: int) -> bool {
    0 <= i < 4 && profile_card(p) == bundled_cards()[i] && composition_ids(p) == bundled_compositions()[i]
}

/// The bundled profile with the given id; an error naming the id otherwise.
pub fn get_profile(profile_id: &str) -> (r: Result<ProfileDefinition, String>)
    ensures
        match r {
            Ok(p) => exists|i: int| is_bundled(p, i) && bundled_ids()[i] == profile_id@,
            Err(m) => !bundled_ids().contains(profile_id@) && m@ == "Perfil '"@ + profile_id@
                + "' não encontrado."@,
        },
{
    let mut ps = all();
    let mut i: usize = 0;
    while i < ps.len()
        invariant
            ps@.len() == 4,
            i <= 4,
            forall|k: int| 0 <= k < 4 ==> (#[trigger] ps@[k]).id@ == bundled_ids()[k],
            forall|k: int| 0 <= k < 4 ==> profile_card(#[trigger] ps@[k]) == bundled_cards()[k],
            forall|k: int| 0 <= k < 4 ==> composition_ids(#[trigger] ps@[k]) == bundled_compositions()[k],
            forall|k: int| 0 <= k < i ==> bundled_ids()[k] != profile_id@,
        decreases 4 - i,
    {
        if str_eq(ps[i].id.as_str(), profile_id) {
            let p = ps.remove(i);
            assert(is_bundled(p, i as int));
            return Ok(p);
        }
        i = i + 1;
    }
    assert(!bundled_ids().contains(profile_id@)) by {
        if bundled_ids().contains(profile_id@) {
            let k = choose|k: int| 0 <= k < bundled_ids().len() && bundled_ids()[k] == profile_id@;
            assert(bundled_ids()[k] != profile_id@);
        }
    }
    let mut m = owned("Perfil '");
    m.append(profile_id);
    m.append("' não encontrado.");
    Err(m)
}

/// What deactivating needs: an error when no profile is active, else the
/// snapshot to roll back, if one was recorded.
pub fn deactivation_target(state: &ProfileStateRow) -> (r: Result<Option<i64>, &'static str>)
    ensures
        state.profile_id is None ==> (r matches Err(m) && m@ == "Nenhum perfil ativo no momento."@),
        state.profile_id is Some ==> r == Ok::<Option<i64>, &'static str>(state.snapshot_id),
{
    if state.profile_id.is_none() {
        return Err("Nenhum perfil ativo no momento.");
    }
    Ok(state.snapshot_id)
}

// ───────────────────────── Preview ─────────────────────────

/// The first metadata entry of `t` with the given id.
pub open spec fn meta_in(t: Seq<ConfigMetaView>, id: Seq<char>) -> Option<ConfigMetaView>
    decreases t.len(),
{
    if t.len() == 0 {
        None
    } else if t[0].id == id {
        Some(t[0])
    } else {
        meta_in(t.drop_first(), id)
    }
}

/// The registered configurations among `ids`, in order, by their metadata.
pub open spec fn found_metas(ids: Seq<Seq<char>>) -> Seq<ConfigMetaView>
    decreases ids.len(),
{
    if ids.len() == 0 {
        Seq::<ConfigMetaView>::empty()
    } else {
        let rest = found_metas(ids.drop_last());
        match meta_in(config_table(), ids.last()) {
            Some(m) => rest.push(m),
            None => rest,
        }
    }
}

/// The highest risk among the configurations, Safe when there is none.
pub open spec fn max_risk_of(ms: Seq<ConfigMetaView>) -> ConfigRisk
    decreases ms.len(),
{
    if ms.len() == 0 {
        ConfigRisk::Safe
    } else {
        let r = max_risk_of(ms.drop_last());
        if risk_rank(ms.last().risk) > risk_rank(r) {
            ms.last().risk
        } else {
            r
        }
    }
}

/// Every benchmark that measures one of the configurations.
pub open spec fn relevance_of(ms: Seq<ConfigMetaView>) -> Set<Seq<char>> {
    Set::new(|x: Seq<char>| exists|k: int, j: int| 0 <= k < ms.len() && 0 <= j < ms[k].relevance.len() && #[trigger] ms[k].relevance[j] == x)
}

/// The preview of one configuration as plain values: (id, name, risk,
/// reversible, requires_reboot, relevance).
pub open spec fn config_preview_of(m: ConfigMetaView) -> (Seq<char>, Seq<char>, Seq<char>, bool, bool, Seq<Seq<char>>) {
    (m.id, m.name, risk_key(m.risk), m.reversible, m.requires_reboot, m.relevance)
}

/// A configuration preview as plain values.
pub open spec fn config_preview_view(c: ProfileConfigPreview) -> (Seq<char>, Seq<char>, Seq<char>, bool, bool, Seq<Seq<char>>) {
    (c.config_id@, c.name@, c.risk@, c.reversible, c.requires_reboot, strings_of(c.benchmark_relevance@))
}

/// In a table whose ids differ, an entry is found by its id.
proof fn lemma_meta_in_found(t: Seq<ConfigMetaView>, id: Seq<char>, i: int)
    requires
        all_distinct(t.map_values(|m: ConfigMetaView| m.id)),
        0 <= i < t.len(),
        t[i].id == id,
    ensures
        meta_in(t, id) == Some(t[i]),
    decreases t.len(),
{
    if i > 0 {
        let ids = t.map_values(|m: ConfigMetaView| m.id);
        assert(ids[0] != ids[i]);
        let rest = t.drop_first();
        assert(rest.map_values(|m: ConfigMetaView| m.id) =~= ids.drop_first());
        lemma_meta_in_found(rest, id, i - 1);
    }
}

/// An id that no entry carries is not found.
proof fn lemma_meta_in_absent(t: Seq<ConfigMetaView>, id: Seq<char>)
    requires
        forall|k: int| 0 <= k < t.len() ==> (#[trigger] t[k]).id != id,
    ensures
        meta_in(t, id) is None,
    decreases t.len(),
{
    if t.len() > 0 {
        assert(t[0].id != id);
        lemma_meta_in_absent(t.drop_first(), id);
    }
}

fn strs_to_strings(v: &[&str]) -> (r: Vec<String>)
    ensures
        strings_of(r@) == crate::configs::strs_view(v@),
{
    let mut r: Vec<String> = Vec::new();
    let mut i: usize = 0;
    while i < v.len()
        invariant
            i <= v@.len(),
            strings_of(r@) == crate::configs::strs_view(v@.subrange(0, i as int)),
        decreases v@.len() - i,
    {
        let ghost before = r@;
        r.push(owned(v[i]));
        assert(strings_of(r@) =~= strings_of(before).push(v@[i as int]@));
        assert(crate::configs::strs_view(v@.subrange(0, i + 1)) =~= crate::configs::strs_view(v@.subrange(0, i as int)).push(v@[i as int]@));
        i = i + 1;
    }
    assert(v@.subrange(0, v@.len() as int) =~= v@);
    r
}

/// Adds the benchmarks of one configuration to a sorted set of names.
fn add_relevance(v: &mut Vec<String>, rel: &[&str])
    requires
        strictly_sorted(strings_of(old(v)@)),
    ensures
        strictly_sorted(strings_of(final(v)@)),
        strings_of(final(v)@).to_set() == strings_of(old(v)@).to_set().union(crate::configs::strs_view(rel@).to_set()),
{
    let ghost start = strings_of(v@).to_set();
    let mut j: usize = 0;
    while j < rel.len()
        invariant
            j <= rel@.len(),
            strictly_sorted(strings_of(v@)),
            strings_of(v@).to_set() == start.union(crate::configs::strs_view(rel@.subrange(0, j as int)).to_set()),
        decreases rel@.len() - j,
    {
        insert_sorted(v, rel[j]);
        proof {
            let a = crate::configs::strs_view(rel@.subrange(0, j as int));
            let b = crate::configs::strs_view(rel@.subrange(0, j + 1));
            assert(b =~= a.push(rel@[j as int]@));
            assert(b.to_set() =~= a.to_set().insert(rel@[j as int]@)) by {
                assert forall|x: Seq<char>| b.to_set().contains(x) implies a.to_set().insert(rel@[j as int]@).contains(x) by {
                    let k = choose|k: int| 0 <= k < b.len() && b[k] == x;
                    if k < a.len() {
                        assert(a[k] == x);
                    }
                }
                assert forall|x: Seq<char>| a.to_set().insert(rel@[j as int]@).contains(x) implies b.to_set().contains(x) by {
                    if x == rel@[j as int]@ {
                        assert(b[a.len() as int] == x);
                    } else {
                        let k = choose|k: int| 0 <= k < a.len() && a[k] == x;
                        assert(b[k] == x);
                    }
                }
            }
            assert(strings_of(v@).to_set() =~= start.union(b.to_set()));
        }
        j = j + 1;
    }
    assert(rel@.subrange(0, rel@.len() as int) =~= rel@);
}

/// Adding one configuration adds its benchmarks.
proof fn lemma_relevance_push(ms: Seq<ConfigMetaView>, m: ConfigMetaView)
    ensures
        relevance_of(ms.push(m)) == relevance_of(ms).union(m.relevance.to_set()),
{
    let p = ms.push(m);
    assert forall|x: Seq<char>| relevance_of(p).contains(x) implies relevance_of(ms).union(m.relevance.to_set()).contains(x) by {
        let (k, j) = choose|k: int, j: int| 0 <= k < p.len() && 0 <= j < p[k].relevance.len() && #[trigger] p[k].relevance[j] == x;
        if k < ms.len() {
            assert(ms[k].relevance[j] == x);
        } else {
            assert(m.relevance.contains(x));
        }
    }
    assert forall|x: Seq<char>| relevance_of(ms).union(m.relevance.to_set()).contains(x) implies relevance_of(p).contains(x) by {
        if relevance_of(ms).contains(x) {
            let (k, j) = choose|k: int, j: int| 0 <= k < ms.len() && 0 <= j < ms[k].relevance.len() && #[trigger] ms[k].relevance[j] == x;
            assert(p[k].relevance[j] == x);
        } else {
            let j = choose|j: int| 0 <= j < m.relevance.len() && m.relevance[j] == x;
            assert(p[ms.len() as int].relevance[j] == x);
        }
    }
    assert(relevance_of(p) =~= relevance_of(ms).union(m.relevance.to_set()));
}

/// Whether `pv` previews the bundled profile `i`: its configurations found in
/// the registry, in order; a reboot when one of them needs it; their highest
/// risk; and every benchmark that measures one of them, once, in order.
pub open spec fn preview_matches(pv: ProfilePreview, i: int) -> bool {
    let ms = found_metas(bundled_compositions()[i]);
    &&& pv.profile_id@ == bundled_cards()[i].0
    &&& pv.name@ == bundled_cards()[i].1
    &&& (match pv.description {
        Some(d) => d@,
        None => Seq::<char>::empty(),
    }) == bundled_cards()[i].2
    &&& pv.configs@.map_values(|c: ProfileConfigPreview| config_preview_view(c)) == ms.map_values(
        |m: ConfigMetaView| config_preview_of(m),
    )
    &&& pv.requires_reboot == exists|k: int| 0 <= k < ms.len() && #[trigger] ms[k].requires_reboot
    &&& pv.max_risk@ == risk_key(max_risk_of(ms))
    &&& strictly_sorted(strings_of(pv.benchmark_relevance@))
    &&& strings_of(pv.benchmark_relevance@).to_set() == relevance_of(ms)
}

/// Previews a bundled profile without applying anything; an error naming an
/// unknown id.
pub fn preview(profile_id: &str) -> (r: Result<ProfilePreview, String>)
    ensures
        match r {
            Ok(pv) => exists|i: int| 0 <= i < 4 && bundled_ids()[i] == profile_id@ && preview_matches(pv, i),
            Err(m) => !bundled_ids().contains(profile_id@) && m@ == "Perfil '"@ + profile_id@
                + "' não encontrado."@,
        },
{
    let profile = get_profile(profile_id)?;
    let ghost bi = choose|i: int| is_bundled(profile, i) && bundled_ids()[i] == profile_id@;
    let registry = ConfigRegistry::new();
    let ghost ids = composition_ids(profile);
    proof {
        crate::configs::lemma_config_ids_distinct();
    }
    let mut configs: Vec<ProfileConfigPreview> = Vec::new();
    let mut requires_reboot = false;
    let mut max_risk = ConfigRisk::Safe;
    let mut relevance: Vec<String> = Vec::new();
    let mut k: usize = 0;
    assert(strings_of(relevance@).to_set() =~= relevance_of(Seq::<ConfigMetaView>::empty()));
    assert(ids.subrange(0, 0) =~= Seq::<Seq<char>>::empty());
    while k < profile.compositions.len()
        invariant
            registry@ == config_table(),
            all_distinct(config_ids()),
            ids == composition_ids(profile),
            k <= ids.len(),
            configs@.map_values(|c: ProfileConfigPreview| config_preview_view(c)) == found_metas(ids.subrange(0, k as int)).map_values(|m: ConfigMetaView| config_preview_of(m)),
            requires_reboot == exists|j: int| 0 <= j < found_metas(ids.subrange(0, k as int)).len() && #[trigger] found_metas(ids.subrange(0, k as int))[j].requires_reboot,
            max_risk == max_risk_of(found_metas(ids.subrange(0, k as int))),
            strictly_sorted(strings_of(relevance@)),
            strings_of(relevance@).to_set() == relevance_of(found_metas(ids.subrange(0, k as int))),
        decreases ids.len() - k,
    {
        let comp_id = profile.compositions[k].config_id.as_str();
        let ghost before = found_metas(ids.subrange(0, k as int));
        assert(ids.subrange(0, k + 1).drop_last() =~= ids.subrange(0, k as int));
        assert(ids.subrange(0, k + 1).last() == comp_id@);
        match registry.find(comp_id) {
            Some(cfg) => {
                let meta = cfg.meta();
                proof {
                    let i = choose|i: int| 0 <= i < config_table().len() && config_table()[i] == cfg.spec_meta().view();
                    lemma_meta_in_found(config_table(), comp_id@, i);
                    lemma_relevance_push(before, meta.view());
                }
                let ghost after = before.push(meta.view());
                assert(found_metas(ids.subrange(0, k + 1)) == after);
                let ghost old_configs = configs@;
                let ghost old_reboot = requires_reboot;
                requires_reboot = requires_reboot || meta.requires_reboot;
                if !meta.risk.at_most(&max_risk) {
                    max_risk = meta.risk;
                }
                assert(after.drop_last() =~= before);
                add_relevance(&mut relevance, meta.benchmark_relevance);
                configs.push(ProfileConfigPreview {
                    config_id: owned(comp_id),
                    name: owned(meta.name),
                    risk: risk_str(&meta.risk),
                    reversible: meta.reversible,
                    requires_reboot: meta.requires_reboot,
                    benchmark_relevance: strs_to_strings(meta.benchmark_relevance),
                });
                assert(configs@.map_values(|c: ProfileConfigPreview| config_preview_view(c)) =~= old_configs.map_values(|c: ProfileConfigPreview| config_preview_view(c)).push(config_preview_of(meta.view())));
                assert(after.map_values(|m: ConfigMetaView| config_preview_of(m)) =~= before.map_values(|m: ConfigMetaView| config_preview_of(m)).push(config_preview_of(meta.view())));
                assert(requires_reboot == exists|j: int| 0 <= j < after.len() && #[trigger] after[j].requires_reboot) by {
                    if old_reboot {
                        let j = choose|j: int| 0 <= j < before.len() && #[trigger] before[j].requires_reboot;
                        assert(after[j] == before[j]);
                    }
                    if meta.requires_reboot {
                        assert(after[before.len() as int].requires_reboot);
                    }
                    if exists|j: int| 0 <= j < after.len() && #[trigger] after[j].requires_reboot {
                        let j = choose|j: int| 0 <= j < after.len() && #[trigger] after[j].requires_reboot;
                        if j < before.len() {
                            assert(before[j] == after[j]);
                        }
                    }
                }
            },
            None => {
                proof {
                    assert forall|q: int| 0 <= q < config_table().len() implies (#[trigger] config_table()[q]).id != comp_id@ by {
                        assert(config_ids()[q] == config_table()[q].id);
                    }
                    lemma_meta_in_absent(config_table(), comp_id@);
                }
                assert(found_metas(ids.subrange(0, k + 1)) == before);
            },
        }
        k = k + 1;
    }
    assert(ids.subrange(0, ids.len() as int) =~= ids);
    let description = match &profile.description {
        Some(d) => Some(owned(d.as_str())),
        None => None,
    };
    let pv = ProfilePreview {
        profile_id: owned(profile.id.as_str()),
        name: owned(profile.name.as_str()),
        description,
        configs,
        requires_reboot,
        max_risk: risk_str(&max_risk),
        benchmark_relevance: relevance,
    };
    assert(preview_matches(pv, bi));
    Ok(pv)
}

// ───────────────────────── Activation ─────────────────────────

/// What activating a profile does: the actions to apply, the configurations
/// applied and skipped, and whether a reboot is pending.
#[derive(Debug)]
pub struct ActivationPlan {
    pub actions: Vec<ReversibleAction>,
    pub applied: Vec<String>,
    pub skipped: Vec<String>,
    pub pending_reboot: bool,
}

/// The views of a list of strings.
pub open spec fn strings_view(v: Seq<String>) -> Seq<Seq<char>> {
    v.map_values(|s: String| s@)
}

/// Whether the registered configuration `id` needs a reboot.
pub open spec fn needs_reboot(id: Seq<char>) -> bool {
    exists|i: int| 0 <= i < config_table().len() && config_table()[i].id == id && #[trigger] config_table()[i].requires_reboot
}

/// Whether `k` is the first configuration whose "before" read failed.
pub open spec fn is_first_failure(ids: Seq<Seq<char>>, st: SystemState, k: int) -> bool {
    0 <= k < ids.len() && action_failed(ids[k], st) && forall|j: int| 0 <= j < k ==> !action_failed(#[trigger] ids[j], st)
}

/// The plan owed for a profile: an error naming the first configuration whose
/// "before" read failed; otherwise the ready configurations in order, with
/// their actions, the others skipped, and a pending reboot when an applied
/// one needs it.
pub open spec fn activation_plan_ok(p: ProfileDefinition, st: SystemState, r: Result<ActivationPlan, String>) -> bool {
    let ids = composition_ids(p);
    match r {
        Err(m) => exists|k: int| is_first_failure(ids, st, k) && m@ == "Falha ao preparar "@ + ids[k] + ": "@ + read_error(ids[k], st),
        Ok(plan) => {
            &&& forall|k: int| 0 <= k < ids.len() ==> !action_failed(#[trigger] ids[k], st)
            &&& strings_view(plan.applied@) == ids.filter(|id: Seq<char>| action_ready(id, st))
            &&& strings_view(plan.skipped@) == ids.filter(|id: Seq<char>| !action_ready(id, st))
            &&& plan.actions@.len() == plan.applied@.len()
            &&& forall|j: int| 0 <= j < plan.actions@.len() ==> expected_action(plan.applied@[j]@, st, #[trigger] plan.actions@[j])
            &&& plan.pending_reboot == exists|j: int| 0 <= j < plan.applied@.len() && needs_reboot(#[trigger] plan.applied@[j]@)
        },
    }
}

fn reboot_needed(registry: &ConfigRegistry, id: &str) -> (b: bool)
    requires
        registry@ == config_table(),
    ensures
        b == needs_reboot(id@),
{
    proof {
        crate::configs::lemma_config_ids_distinct();
    }
    match registry.find(id) {
        Some(d) => {
            let b = d.meta().requires_reboot;
            proof {
                let i = choose|i: int| 0 <= i < config_table().len() && config_table()[i] == d.spec_meta().view();
                assert(config_table()[i].requires_reboot == b);
                assert(config_table()[i].id == id@);
                if b {
                    assert(needs_reboot(id@));
                }
                if needs_reboot(id@) {
                    let j = choose|j: int| 0 <= j < config_table().len() && config_table()[j].id == id@ && #[trigger] config_table()[j].requires_reboot;
                    assert(config_ids()[i] == config_table()[i].id);
                    assert(config_ids()[j] == config_table()[j].id);
                    assert(i == j);
                }
            }
            b
        },
        None => {
            proof {
                if needs_reboot(id@) {
                    let j = choose|j: int| 0 <= j < config_table().len() && config_table()[j].id == id@ && #[trigger] config_table()[j].requires_reboot;
                    assert(config_ids()[j] == id@);
                }
            }
            false
        },
    }
}

/// Builds the plan of a profile activation: each configuration of the profile
/// through `build_action`, in order, stopping at the first failed read.
pub fn plan_activation(p: &ProfileDefinition, st: &SystemState) -> (r: Result<ActivationPlan, String>)
    ensures
        activation_plan_ok(*p, *st, r),
{
    let registry = ConfigRegistry::new();
    let ghost ids = composition_ids(*p);
    let ghost ready = |id: Seq<char>| action_ready(id, *st);
    let ghost not_ready = |id: Seq<char>| !action_ready(id, *st);
    let mut actions: Vec<ReversibleAction> = Vec::new();
    let mut applied: Vec<String> = Vec::new();
    let mut skipped: Vec<String> = Vec::new();
    let mut pending_reboot = false;
    let mut k: usize = 0;
    while k < p.compositions.len()
        invariant
            registry@ == config_table(),
            ids == composition_ids(*p),
            ready == (|id: Seq<char>| action_ready(id, *st)),
            not_ready == (|id: Seq<char>| !action_ready(id, *st)),
            k <= ids.len(),
            forall|j: int| 0 <= j < k ==> !action_failed(#[trigger] ids[j], *st),
            strings_view(applied@) == ids.subrange(0, k as int).filter(ready),
            strings_view(skipped@) == ids.subrange(0, k as int).filter(not_ready),
            actions@.len() == applied@.len(),
            forall|j: int| 0 <= j < actions@.len() ==> expected_action(applied@[j]@, *st, #[trigger] actions@[j]),
            pending_reboot == exists|j: int| 0 <= j < applied@.len() && needs_reboot(#[trigger] applied@[j]@),
        decreases ids.len() - k,
    {
        let id = p.compositions[k].config_id.as_str();
        assert(id@ == ids[k as int]);
        proof {
            crate::configs::lemma_filter_step(ids, k as int, ready);
            crate::configs::lemma_filter_step(ids, k as int, not_ready);
        }
        match build_action(id, st) {
            Err(e) => {
                let mut m = owned("Falha ao preparar ");
                m.append(id);
                m.append(": ");
                m.append(e.as_str());
                assert(is_first_failure(ids, *st, k as int));
                return Err(m);
            },
            Ok(ConfigAction::Executable(a)) => {
                let ghost before_applied = applied@;
                let need = reboot_needed(&registry, id);
                actions.push(a);
                applied.push(owned(id));
                assert(strings_view(applied@) =~= strings_view(before_applied).push(id@));
                assert(forall|j: int| 0 <= j < before_applied.len() ==> applied@[j] == before_applied[j]);
                if need {
                    pending_reboot = true;
                    assert(needs_reboot(applied@[applied@.len() - 1]@));
                }
                assert(pending_reboot == exists|j: int| 0 <= j < applied@.len() && needs_reboot(#[trigger] applied@[j]@));
            },
            Ok(ConfigAction::Unsupported { .. }) => {
                let ghost before_skipped = skipped@;
                skipped.push(owned(id));
                assert(strings_view(skipped@) =~= strings_view(before_skipped).push(id@));
            },
        }
        k = k + 1;
    }
    assert(ids.subrange(0, ids.len() as int) =~= ids);
    assert(ready =~= (|id: Seq<char>| action_ready(id, *st)));
    assert(not_ready =~= (|id: Seq<char>| !action_ready(id, *st)));
    let plan = ActivationPlan { actions, applied, skipped, pending_reboot };
    assert(forall|k: int| 0 <= k < ids.len() ==> !action_failed(#[trigger] ids[k], *st));
    assert(strings_view(plan.applied@) == ids.filter(|id: Seq<char>| action_ready(id, *st)));
    assert(strings_view(plan.skipped@) == ids.filter(|id: Seq<char>| !action_ready(id, *st)));
    assert(plan.actions@.len() == plan.applied@.len());
    assert(forall|j: int| 0 <= j < plan.actions@.len() ==> expected_action(plan.applied@[j]@, *st, #[trigger] plan.actions@[j]));
    assert(plan.pending_reboot == exists|j: int| 0 <= j < plan.applied@.len() && needs_reboot(#[trigger] plan.applied@[j]@));
    Ok(plan)
}

/// The message of a completed activation.
pub fn activation_message(pending_reboot: bool, applied_any: bool) -> (m: &'static str)
    ensures
        pending_reboot ==> m@ == "Perfil ativo. Reinicialização necessária para algumas configurações."@,
        !pending_reboot && !applied_any ==> m@ == "Perfil registrado. Implementações pendentes para esta versão."@,
        !pending_reboot && applied_any ==> m@ == "Perfil ativo."@,
{
    if pending_reboot {
        "Perfil ativo. Reinicialização necessária para algumas configurações."
    } else if !applied_any {
        "Perfil registrado. Implementações pendentes para esta versão."
    } else {
        "Perfil ativo."
    }
}

/// The message that rolls an activation back after applying its actions
/// failed: `None` when they were applied.
pub fn apply_failure_message(applied: &Result<(), RollbackError>) -> (m: Option<String>)
    ensures
        applied is Ok ==> m is None,
        *applied matches Err(e) ==> (m matches Some(s) && s@ == "Falha ao aplicar ações do perfil: "@ + rollback_error_text(e)),
{
    match applied {
        Ok(()) => None,
        Err(e) => {
            let text = e.message();
            Some(concat2("Falha ao aplicar ações do perfil: ", text.as_str()))
        },
    }
}

/// The message that rolls an activation back after its actions were applied
/// but are not all in effect: `None` only when verification reported every
/// action in effect; a verification error counts as not in effect.
pub fn verify_failure_message(verified: &Result<bool, RollbackError>) -> (m: Option<String>)
    ensures
        (verified matches Ok(true)) ==> m is None,
        !(verified matches Ok(true)) ==> (m matches Some(s) && s@ == "Verificação falhou após aplicação do perfil."@),
{
    match verified {
        Ok(true) => None,
        _ => Some(owned("Verificação falhou após aplicação do perfil.")),
    }
}

/// The record of an activation: the profile switched to, the profile that was
/// active before (from the stored state), the snapshot, the machine, whether
/// a reboot is pending, under the default user context and the activation
/// source.
pub fn activation_record(
    profile_id: &str,
    current: &ProfileStateRow,
    snapshot_id: i64,
    fingerprint: &str,
    pending_reboot: bool,
    ts: i64,
) -> (r: ActivationRow)
    ensures
        r.ts == ts,
        r.user_context@ == "default"@,
        r.profile_id@ == profile_id@,
        opt_str_view(r.from_profile_id) == opt_str_view(current.profile_id),
        r.snapshot_id == snapshot_id,
        opt_str_view(r.machine_fingerprint) == Some(fingerprint@),
        r.pending_reboot == pending_reboot,
        r.source@ == "profile_activation"@,
{
    let from = match &current.profile_id {
        Some(p) => Some(owned(p.as_str())),
        None => None,
    };
    ActivationRow {
        ts,
        user_context: owned("default"),
        profile_id: owned(profile_id),
        from_profile_id: from,
        snapshot_id,
        machine_fingerprint: Some(owned(fingerprint)),
        pending_reboot,
        source: owned("profile_activation"),
    }
}

/// The view of an optional string.
pub open spec fn opt_str_view(o: Option<String>) -> Option<Seq<char>> {
    match o {
        Some(s) => Some(s@),
        None => None,
    }
}

// ───────────────────────── Laws ─────────────────────────

/// Configurations the adapter does not know are unsupported, never an error
/// and never an action.
pub proof fn lemma_unknown_config_unsupported(config_id: Seq<char>, r: Result<ConfigAction, String>)
    requires
        !known_config_ids().contains(config_id),
        unsupported_with(r, "config não reconhecida pelo executor"@),
    ensures
        r matches Ok(ConfigAction::Unsupported { .. }),
{
}

/// A power plan that is listed, with the active plan readable, always gives
/// an executable power-plan action that records the active plan as the old one.
pub proof fn lemma_listed_plan_executable(
    r: Result<ConfigAction, String>,
    st: SystemState,
    guid: Seq<char>,
)
    requires
        power_plan_outcome(r, st, guid),
        scheme_listed(st, guid),
        st.active_scheme is Ok,
    ensures
        r matches Ok(ConfigAction::Executable(ReversibleAction::PowerPlan { old_guid, new_guid }))
            && old_guid@ == st.active_scheme->Ok_0@ && new_guid@ == guid,
{
}

/// Without elevation, HAGS is never executable.
pub proof fn lemma_hags_needs_elevation(r: Result<ConfigAction, String>, st: SystemState)
    requires
        hags_outcome(r, st),
        !st.elevated,
    ensures
        r matches Ok(ConfigAction::Unsupported { .. }),
{
}

} // verus!
