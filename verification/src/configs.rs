//! Config registry: the system configurations that profiles may apply.
//!
//! Every configuration is described by immutable metadata (`ConfigMeta`). The
//! registry is the fixed table of the eight configurations that can be
//! measured by a benchmark suite and reverted through a snapshot.

use vstd::prelude::*;

use crate::text::{all_distinct, lemma_heads_differ, str_eq};

verus! {

/// JSON values carried through the configuration interface.
#[verifier::external_type_specification]
#[verifier::external_body]
pub struct ExJsonValue(serde_json::Value);

/// Functional category of a configuration.
#[derive(Debug, Clone, Copy, PartialEq, Eq, Structural, Hash)]
pub enum ConfigCategory {
    Gpu,
    Memory,
    Cpu,
    Timer,
    Power,
    Display,
}

/// Stable key of a category.
pub open spec fn category_key(c: ConfigCategory) -> Seq<char> {
    match c {
        ConfigCategory::Gpu => "gpu"@,
        ConfigCategory::Memory => "memory"@,
        ConfigCategory::Cpu => "cpu"@,
        ConfigCategory::Timer => "timer"@,
        ConfigCategory::Power => "power"@,
        ConfigCategory::Display => "display"@,
    }
}

impl ConfigCategory {
    pub fn as_str(&self) -> (r: &'static str)
        ensures
            r@ == category_key(*self),
    {
        match self {
            ConfigCategory::Gpu => "gpu",
            ConfigCategory::Memory => "memory",
            ConfigCategory::Cpu => "cpu",
            ConfigCategory::Timer => "timer",
            ConfigCategory::Power => "power",
            ConfigCategory::Display => "display",
        }
    }
}

/// Risk level of a configuration, ordered Safe < Moderate < Advanced.
#[derive(Debug, Clone, Copy, PartialEq, Eq, Structural)]
pub enum ConfigRisk {
    Safe,
    Moderate,
    Advanced,
}

/// Position of a risk level in the order Safe < Moderate < Advanced.
pub open spec fn risk_rank(r: ConfigRisk) -> int {
    match r {
        ConfigRisk::Safe => 0,
        ConfigRisk::Moderate => 1,
        ConfigRisk::Advanced => 2,
    }
}

/// Stable key of a risk level.
pub open spec fn risk_key(r: ConfigRisk) -> Seq<char> {
    match r {
        ConfigRisk::Safe => "safe"@,
        ConfigRisk::Moderate => "moderate"@,
        ConfigRisk::Advanced => "advanced"@,
    }
}

impl ConfigRisk {
    pub fn as_str(&self) -> (r: &'static str)
        ensures
            r@ == risk_key(*self),
    {
        match self {
            ConfigRisk::Safe => "safe",
            ConfigRisk::Moderate => "moderate",
            ConfigRisk::Advanced => "advanced",
        }
    }

    /// Whether `self` is at most as risky as `other`.
    pub fn at_most(&self, other: &ConfigRisk) -> (r: bool)
        ensures
            r == (risk_rank(*self) <= risk_rank(*other)),
    {
        let a: u8 = match self {
            ConfigRisk::Safe => 0,
            ConfigRisk::Moderate => 1,
            ConfigRisk::Advanced => 2,
        };
        let b: u8 = match other {
            ConfigRisk::Safe => 0,
            ConfigRisk::Moderate => 1,
            ConfigRisk::Advanced => 2,
        };
        a <= b
    }
}

/// Immutable metadata of a system configuration.
#[derive(Debug, Clone, Copy)]
pub struct ConfigMeta {
    /// Stable unique id, e.g. "gpu_hardware_scheduling".
    pub id: &'static str,
    pub name: &'static str,
    pub description: &'static str,
    pub category: ConfigCategory,
    pub risk: ConfigRisk,
    /// Whether a snapshot can revert it completely.
    pub reversible: bool,
    /// Whether the full effect needs a reboot; such configurations stay out of
    /// the automatic evidence pipeline.
    pub requires_reboot: bool,
    /// Whether administrator privileges are needed.
    pub requires_elevation: bool,
    /// Ids of the benchmark suites that measure its effect.
    pub benchmark_relevance: &'static [&'static str],
}

/// Metadata as plain values.
pub struct ConfigMetaView {
    pub id: Seq<char>,
    pub name: Seq<char>,
    pub description: Seq<char>,
    pub category: ConfigCategory,
    pub risk: ConfigRisk,
    pub reversible: bool,
    pub requires_reboot: bool,
    pub requires_elevation: bool,
    pub relevance: Seq<Seq<char>>,
}

/// The characters of each string of a list.
pub open spec fn strs_view(s: Seq<&str>) -> Seq<Seq<char>> {
    s.map_values(|x: &str| x@)
}

/// Whether some benchmark of `relevance` is among `capabilities`.
pub open spec fn measurable(relevance: Seq<Seq<char>>, capabilities: Seq<Seq<char>>) -> bool {
    exists|i: int| 0 <= i < relevance.len() && capabilities.contains(#[trigger] relevance[i])
}

impl ConfigMeta {
    pub open spec fn view(self) -> ConfigMetaView {
        ConfigMetaView {
            id: self.id@,
            name: self.name@,
            description: self.description@,
            category: self.category,
            risk: self.risk,
            reversible: self.reversible,
            requires_reboot: self.requires_reboot,
            requires_elevation: self.requires_elevation,
            relevance: strs_view(self.benchmark_relevance@),
        }
    }

    /// Whether this configuration may take part in the automatic evidence
    /// pipeline: reversible and effective without a reboot.
    pub fn eligible_for_auto_evidence(&self) -> (r: bool)
        ensures
            r == (self.reversible && !self.requires_reboot),
    {
        self.reversible && !self.requires_reboot
    }

    /// Whether at least one of its relevant benchmarks is in `capabilities`.
    pub fn has_measurable_evidence(&self, capabilities: &[&str]) -> (r: bool)
        ensures
            r == measurable(self.view().relevance, strs_view(capabilities@)),
    {
        let rel = self.benchmark_relevance;
        let ghost rv = strs_view(rel@);
        let ghost cv = strs_view(capabilities@);
        let mut i: usize = 0;
        while i < rel.len()
            invariant
                i <= rel@.len(),
                rv == strs_view(rel@),
                cv == strs_view(capabilities@),
                rel@ == self.benchmark_relevance@,
                forall|k: int| 0 <= k < i ==> !cv.contains(#[trigger] rv[k]),
            decreases rel@.len() - i,
        {
            let mut j: usize = 0;
            while j < capabilities.len()
                invariant
                    i < rel@.len(),
                    j <= capabilities@.len(),
                    rv == strs_view(rel@),
                    cv == strs_view(capabilities@),
                    rel@ == self.benchmark_relevance@,
                    forall|k: int| 0 <= k < j ==> cv[k] != rv[i as int],
                decreases capabilities@.len() - j,
            {
                if str_eq(rel[i], capabilities[j]) {
                    assert(cv[j as int] == rv[i as int]);
                    assert(cv.contains(rv[i as int]));
                    assert(self.view().relevance == rv);
                    assert(0 <= i < rv.len() && cv.contains(rv[i as int]));
                    return true;
                }
                j = j + 1;
            }
            assert(!cv.contains(rv[i as int])) by {
                if cv.contains(rv[i as int]) {
                    let k = choose|k: int| 0 <= k < cv.len() && cv[k] == rv[i as int];
                    assert(cv[k] != rv[i as int]);
                }
            }
            i = i + 1;
        }
        false
    }
}

/// Error of a configuration operation.
#[derive(Debug, Clone)]
pub enum ConfigError {
    NotImplemented(&'static str),
    ElevationRequired,
    NotFound(String),
    ReadFailed(String),
    ApplyFailed(String),
    RevertFailed(String),
    RebootRequired,
}

/// A managed system configuration: its metadata and its operations.
#[derive(Debug, Clone, Copy)]
pub struct ConfigDefinition {
    meta: ConfigMeta,
}

impl ConfigDefinition {
    pub closed spec fn spec_meta(self) -> ConfigMeta {
        self.meta
    }

    pub fn meta(&self) -> (m: &ConfigMeta)
        ensures
            *m == self.spec_meta(),
    {
        &self.meta
    }

    /// Reads the current state of this configuration (not available yet).
    pub fn read_current(&self) -> (r: Result<serde_json::Value, ConfigError>)
        ensures
            r matches Err(ConfigError::NotImplemented(id)) && id@ == self.spec_meta().id@,
    {
        Err(ConfigError::NotImplemented(self.meta.id))
    }

    /// Applies a new value to this configuration (not available yet).
    pub fn apply(&self, value: &serde_json::Value) -> (r: Result<(), ConfigError>)
        ensures
            r matches Err(ConfigError::NotImplemented(id)) && id@ == self.spec_meta().id@,
    {
        Err(ConfigError::NotImplemented(self.meta.id))
    }

    /// Reverts to a previously read state (not available yet).
    pub fn revert(&self, previous: &serde_json::Value) -> (r: Result<(), ConfigError>)
        ensures
            r matches Err(ConfigError::NotImplemented(id)) && id@ == self.spec_meta().id@,
    {
        Err(ConfigError::NotImplemented(self.meta.id))
    }
}

// ───────────────────────── The table ─────────────────────────

/// The metadata of the eight registered configurations, in registry order.
pub open spec fn config_table() -> Seq<ConfigMetaView> {
    seq![
        ConfigMetaView {
            id: "gpu_hardware_scheduling"@,
            name: "Agendamento de GPU por Hardware"@,
            description: "Ativa o agendamento de GPU via hardware (WDDM 2.7+). Reduz latência de renderização em DirectX 12 e Vulkan. Requer reinicialização para efeito completo."@,
            category: ConfigCategory::Gpu,
            risk: ConfigRisk::Safe,
            reversible: true,
            requires_reboot: true,
            requires_elevation: true,
            relevance: seq!["fps"@, "frame_time"@],
        },
        ConfigMetaView {
            id: "visual_effects_gaming"@,
            name: "Efeitos Visuais — Modo Gaming"@,
            description: "Desativa animações, transparências e sombras do Windows para liberar ciclos de CPU e GPU para o jogo em execução."@,
            category: ConfigCategory::Display,
            risk: ConfigRisk::Safe,
            reversible: true,
            requires_reboot: false,
            requires_elevation: false,
            relevance: seq!["fps"@, "cpu_multi"@],
        },
        ConfigMetaView {
            id: "cpu_core_parking"@,
            name: "Estacionamento de Núcleos de CPU"@,
            description: "Desativa o estacionamento de núcleos (core parking) para garantir que todos os núcleos estejam disponíveis imediatamente sob carga. Requer reinicialização."@,
            category: ConfigCategory::Cpu,
            risk: ConfigRisk::Safe,
            reversible: true,
            requires_reboot: true,
            requires_elevation: true,
            relevance: seq!["cpu_multi"@, "cpu_single"@],
        },
        ConfigMetaView {
            id: "timer_resolution"@,
            name: "Resolução do Timer do Sistema"@,
            description: "Reduz a resolução do timer do sistema para 0.5ms via NtSetTimerResolution. Melhora consistência de frame time e agendamento de threads."@,
            category: ConfigCategory::Timer,
            risk: ConfigRisk::Moderate,
            reversible: true,
            requires_reboot: false,
            requires_elevation: false,
            relevance: seq!["fps"@, "frame_time"@, "cpu_single"@],
        },
        ConfigMetaView {
            id: "hpet"@,
            name: "Timer de Alta Precisão (HPET)"@,
            description: "Desativa o HPET via bcdedit para reduzir overhead de interrupção em sistemas onde o TSC oferece precisão superior. Requer reinicialização."@,
            category: ConfigCategory::Timer,
            risk: ConfigRisk::Moderate,
            reversible: true,
            requires_reboot: true,
            requires_elevation: true,
            relevance: seq!["frame_time"@, "cpu_single"@],
        },
        ConfigMetaView {
            id: "power_plan_high_performance"@,
            name: "Plano de Energia — Alto Desempenho"@,
            description: "Ativa o plano de energia de Alto Desempenho do Windows. Elimina throttling de CPU por economia de energia."@,
            category: ConfigCategory::Power,
            risk: ConfigRisk::Safe,
            reversible: true,
            requires_reboot: false,
            requires_elevation: false,
            relevance: seq!["cpu_multi"@, "cpu_single"@, "fps"@],
        },
        ConfigMetaView {
            id: "power_plan_balanced"@,
            name: "Plano de Energia — Balanceado"@,
            description: "Restaura o plano de energia Balanceado padrão do Windows. Equilibra desempenho e consumo de energia."@,
            category: ConfigCategory::Power,
            risk: ConfigRisk::Safe,
            reversible: true,
            requires_reboot: false,
            requires_elevation: false,
            relevance: seq!["cpu_multi"@, "cpu_single"@],
        },
        ConfigMetaView {
            id: "power_plan_power_saver"@,
            name: "Plano de Energia — Economia"@,
            description: "Ativa o plano de energia de Economia do Windows. Reduz frequência de CPU e consumo total para menor ruído e calor."@,
            category: ConfigCategory::Power,
            risk: ConfigRisk::Safe,
            reversible: true,
            requires_reboot: false,
            requires_elevation: false,
            relevance: seq!["cpu_single"@],
        },
    ]
}

/// The id of each registered configuration, in registry order.
pub open spec fn config_ids() -> Seq<Seq<char>> {
    config_table().map_values(|m: ConfigMetaView| m.id)
}

/// Hardware-accelerated GPU scheduling.
pub fn gpu_hardware_scheduling() -> (d: ConfigDefinition)
    ensures
        d.spec_meta().view() == config_table()[0],
{
    let d = ConfigDefinition {
        meta: ConfigMeta {
            id: "gpu_hardware_scheduling",
            name: "Agendamento de GPU por Hardware",
            description: "Ativa o agendamento de GPU via hardware (WDDM 2.7+). Reduz latência de renderização em DirectX 12 e Vulkan. Requer reinicialização para efeito completo.",
            category: ConfigCategory::Gpu,
            risk: ConfigRisk::Safe,
            reversible: true,
            requires_reboot: true,
            requires_elevation: true,
            benchmark_relevance: &["fps", "frame_time"],
        },
    };
    assert(d.meta.benchmark_relevance@ == seq!["fps", "frame_time"]);
    assert(d.spec_meta().view().relevance =~= seq!["fps"@, "frame_time"@]);
    d
}

/// Visual effects tuned for gaming.
pub fn visual_effects_gaming() -> (d: ConfigDefinition)
    ensures
        d.spec_meta().view() == config_table()[1],
{
    let d = ConfigDefinition {
        meta: ConfigMeta {
            id: "visual_effects_gaming",
            name: "Efeitos Visuais — Modo Gaming",
            description: "Desativa animações, transparências e sombras do Windows para liberar ciclos de CPU e GPU para o jogo em execução.",
            category: ConfigCategory::Display,
            risk: ConfigRisk::Safe,
            reversible: true,
            requires_reboot: false,
            requires_elevation: false,
            benchmark_relevance: &["fps", "cpu_multi"],
        },
    };
    assert(d.meta.benchmark_relevance@ == seq!["fps", "cpu_multi"]);
    assert(d.spec_meta().view().relevance =~= seq!["fps"@, "cpu_multi"@]);
    d
}

/// CPU core parking disabled.
pub fn cpu_core_parking() -> (d: ConfigDefinition)
    ensures
        d.spec_meta().view() == config_table()[2],
{
    let d = ConfigDefinition {
        meta: ConfigMeta {
            id: "cpu_core_parking",
            name: "Estacionamento de Núcleos de CPU",
            description: "Desativa o estacionamento de núcleos (core parking) para garantir que todos os núcleos estejam disponíveis imediatamente sob carga. Requer reinicialização.",
            category: ConfigCategory::Cpu,
            risk: ConfigRisk::Safe,
            reversible: true,
            requires_reboot: true,
            requires_elevation: true,
            benchmark_relevance: &["cpu_multi", "cpu_single"],
        },
    };
    assert(d.meta.benchmark_relevance@ == seq!["cpu_multi", "cpu_single"]);
    assert(d.spec_meta().view().relevance =~= seq!["cpu_multi"@, "cpu_single"@]);
    d
}

/// System timer resolution.
pub fn timer_resolution() -> (d: ConfigDefinition)
    ensures
        d.spec_meta().view() == config_table()[3],
{
    let d = ConfigDefinition {
        meta: ConfigMeta {
            id: "timer_resolution",
            name: "Resolução do Timer do Sistema",
            description: "Reduz a resolução do timer do sistema para 0.5ms via NtSetTimerResolution. Melhora consistência de frame time e agendamento de threads.",
            category: ConfigCategory::Timer,
            risk: ConfigRisk::Moderate,
            reversible: true,
            requires_reboot: false,
            requires_elevation: false,
            benchmark_relevance: &["fps", "frame_time", "cpu_single"],
        },
    };
    assert(d.meta.benchmark_relevance@ == seq!["fps", "frame_time", "cpu_single"]);
    assert(d.spec_meta().view().relevance =~= seq!["fps"@, "frame_time"@, "cpu_single"@]);
    d
}

/// High-precision event timer (HPET).
pub fn hpet() -> (d: ConfigDefinition)
    ensures
        d.spec_meta().view() == config_table()[4],
{
    let d = ConfigDefinition {
        meta: ConfigMeta {
            id: "hpet",
            name: "Timer de Alta Precisão (HPET)",
            description: "Desativa o HPET via bcdedit para reduzir overhead de interrupção em sistemas onde o TSC oferece precisão superior. Requer reinicialização.",
            category: ConfigCategory::Timer,
            risk: ConfigRisk::Moderate,
            reversible: true,
            requires_reboot: true,
            requires_elevation: true,
            benchmark_relevance: &["frame_time", "cpu_single"],
        },
    };
    assert(d.meta.benchmark_relevance@ == seq!["frame_time", "cpu_single"]);
    assert(d.spec_meta().view().relevance =~= seq!["frame_time"@, "cpu_single"@]);
    d
}

/// High-performance power plan.
pub fn power_plan_high_performance() -> (d: ConfigDefinition)
    ensures
        d.spec_meta().view() == config_table()[5],
{
    let d = ConfigDefinition {
        meta: ConfigMeta {
            id: "power_plan_high_performance",
            name: "Plano de Energia — Alto Desempenho",
            description: "Ativa o plano de energia de Alto Desempenho do Windows. Elimina throttling de CPU por economia de energia.",
            category: ConfigCategory::Power,
            risk: ConfigRisk::Safe,
            reversible: true,
            requires_reboot: false,
            requires_elevation: false,
            benchmark_relevance: &["cpu_multi", "cpu_single", "fps"],
        },
    };
    assert(d.meta.benchmark_relevance@ == seq!["cpu_multi", "cpu_single", "fps"]);
    assert(d.spec_meta().view().relevance =~= seq!["cpu_multi"@, "cpu_single"@, "fps"@]);
    d
}

/// Balanced power plan.
pub fn power_plan_balanced() -> (d: ConfigDefinition)
    ensures
        d.spec_meta().view() == config_table()[6],
{
    let d = ConfigDefinition {
        meta: ConfigMeta {
            id: "power_plan_balanced",
            name: "Plano de Energia — Balanceado",
            description: "Restaura o plano de energia Balanceado padrão do Windows. Equilibra desempenho e consumo de energia.",
            category: ConfigCategory::Power,
            risk: ConfigRisk::Safe,
            reversible: true,
            requires_reboot: false,
            requires_elevation: false,
            benchmark_relevance: &["cpu_multi", "cpu_single"],
        },
    };
    assert(d.meta.benchmark_relevance@ == seq!["cpu_multi", "cpu_single"]);
    assert(d.spec_meta().view().relevance =~= seq!["cpu_multi"@, "cpu_single"@]);
    d
}

/// Power-saver plan.
pub fn power_plan_power_saver() -> (d: ConfigDefinition)
    ensures
        d.spec_meta().view() == config_table()[7],
{
    let d = ConfigDefinition {
        meta: ConfigMeta {
            id: "power_plan_power_saver",
            name: "Plano de Energia — Economia",
            description: "Ativa o plano de energia de Economia do Windows. Reduz frequência de CPU e consumo total para menor ruído e calor.",
            category: ConfigCategory::Power,
            risk: ConfigRisk::Safe,
            reversible: true,
            requires_reboot: false,
            requires_elevation: false,
            benchmark_relevance: &["cpu_single"],
        },
    };
    assert(d.meta.benchmark_relevance@ == seq!["cpu_single"]);
    assert(d.spec_meta().view().relevance =~= seq!["cpu_single"@]);
    d
}

// ───────────────────────── Registry ─────────────────────────

/// One step of a filter over a growing prefix.
pub proof fn lemma_filter_step<A>(s: Seq<A>, i: int, pred: spec_fn(A) -> bool)
    requires
        0 <= i < s.len(),
    ensures
        s.subrange(0, i + 1).filter(pred) == (if pred(s[i]) {
            s.subrange(0, i).filter(pred).push(s[i])
        } else {
            s.subrange(0, i).filter(pred)
        }),
        s.subrange(0, i).filter(pred).len() <= i,
{
    reveal(Seq::filter);
    let sub = s.subrange(0, i + 1);
    assert(sub.drop_last() =~= s.subrange(0, i));
    assert(sub.last() == s[i]);
    s.subrange(0, i).lemma_filter_len(pred);
}

/// Central registry of the managed system configurations.
pub struct ConfigRegistry {
    entries: Vec<ConfigDefinition>,
}

/// The metadata views of a list of definitions.
pub open spec fn metas_view(ds: Seq<ConfigDefinition>) -> Seq<ConfigMetaView> {
    ds.map_values(|d: ConfigDefinition| d.spec_meta().view())
}

impl ConfigRegistry {
    #[verifier::type_invariant]
    closed spec fn wf(self) -> bool {
        metas_view(self.entries@) == config_table()
    }

    /// The metadata of the registered configurations, in order.
    pub closed spec fn view(self) -> Seq<ConfigMetaView> {
        metas_view(self.entries@)
    }

    /// Builds the registry with every available configuration.
    pub fn new() -> (r: Self)
        ensures
            r@ == config_table(),
    {
        let mut entries: Vec<ConfigDefinition> = Vec::new();
        entries.push(gpu_hardware_scheduling());
        entries.push(visual_effects_gaming());
        entries.push(cpu_core_parking());
        entries.push(timer_resolution());
        entries.push(hpet());
        entries.push(power_plan_high_performance());
        entries.push(power_plan_balanced());
        entries.push(power_plan_power_saver());
        assert(metas_view(entries@) =~= config_table());
        ConfigRegistry { entries }
    }

    /// Every registered configuration.
    pub fn all(&self) -> (r: &[ConfigDefinition])
        ensures
            metas_view(r@) == config_table(),
    {
        proof {
            use_type_invariant(self);
        }
        self.entries.as_slice()
    }

    /// The configuration with the given id, if registered.
    pub fn find(&self, id: &str) -> (r: Option<&ConfigDefinition>)
        ensures
            r is None <==> !config_ids().contains(id@),
            r matches Some(d) ==> d.spec_meta().view().id == id@ && exists|i: int|
                0 <= i < config_table().len() && config_table()[i] == d.spec_meta().view(),
    {
        proof {
            use_type_invariant(self);
        }
        let mut i: usize = 0;
        while i < self.entries.len()
            invariant
                metas_view(self.entries@) == config_table(),
                i <= self.entries@.len(),
                forall|k: int| 0 <= k < i ==> config_ids()[k] != id@,
            decreases self.entries@.len() - i,
        {
            let d = &self.entries[i];
            assert(metas_view(self.entries@)[i as int] == config_table()[i as int]);
            if str_eq(d.meta().id, id) {
                assert(config_ids()[i as int] == id@);
                return Some(d);
            }
            i = i + 1;
        }
        assert(!config_ids().contains(id@)) by {
            if config_ids().contains(id@) {
                let k = choose|k: int| 0 <= k < config_ids().len() && config_ids()[k] == id@;
                assert(config_ids()[k] != id@);
            }
        }
        None
    }

    /// The metadata of every configuration.
    pub fn all_meta(&self) -> (r: Vec<ConfigMeta>)
        ensures
            r@.map_values(|m: ConfigMeta| m.view()) == config_table(),
    {
        proof {
            use_type_invariant(self);
        }
        let mut out: Vec<ConfigMeta> = Vec::new();
        let mut i: usize = 0;
        while i < self.entries.len()
            invariant
                metas_view(self.entries@) == config_table(),
                i <= self.entries@.len(),
                out@.map_values(|m: ConfigMeta| m.view()) =~= config_table().subrange(0, i as int),
            decreases self.entries@.len() - i,
        {
            assert(metas_view(self.entries@)[i as int] == config_table()[i as int]);
            let ghost before = out@;
            out.push(*self.entries[i].meta());
            assert(out@.map_values(|m: ConfigMeta| m.view()) =~= before.map_values(
                |m: ConfigMeta| m.view(),
            ).push(config_table()[i as int]));
            assert(config_table().subrange(0, i + 1) =~= config_table().subrange(0, i as int).push(
                config_table()[i as int],
            ));
            i = i + 1;
        }
        assert(config_table().subrange(0, 8) =~= config_table());
        out
    }

    /// The configurations of a category, in registry order.
    pub fn by_category(&self, category: &ConfigCategory) -> (r: Vec<ConfigDefinition>)
        ensures
            metas_view(r@) == config_table().filter(|m: ConfigMetaView| m.category == *category),
    {
        proof {
            use_type_invariant(self);
        }
        let ghost pred = |m: ConfigMetaView| m.category == *category;
        let mut out: Vec<ConfigDefinition> = Vec::new();
        let mut i: usize = 0;
        while i < self.entries.len()
            invariant
                metas_view(self.entries@) == config_table(),
                i <= self.entries@.len(),
                pred == (|m: ConfigMetaView| m.category == *category),
                metas_view(out@) == config_table().subrange(0, i as int).filter(pred),
            decreases self.entries@.len() - i,
        {
            let d = self.entries[i];
            assert(metas_view(self.entries@)[i as int] == config_table()[i as int]);
            proof {
                lemma_filter_step(config_table(), i as int, pred);
            }
            let ghost before = out@;
            if d.meta().category == *category {
                out.push(d);
                assert(metas_view(out@) =~= metas_view(before).push(d.spec_meta().view()));
            }
            i = i + 1;
        }
        assert(config_table().subrange(0, 8) =~= config_table());
        out
    }

    /// The configurations whose risk is at most `max_risk`, in registry order.
    pub fn by_max_risk(&self, max_risk: &ConfigRisk) -> (r: Vec<ConfigDefinition>)
        ensures
            metas_view(r@) == config_table().filter(
                |m: ConfigMetaView| risk_rank(m.risk) <= risk_rank(*max_risk),
            ),
    {
        proof {
            use_type_invariant(self);
        }
        let ghost pred = |m: ConfigMetaView| risk_rank(m.risk) <= risk_rank(*max_risk);
        let mut out: Vec<ConfigDefinition> = Vec::new();
        let mut i: usize = 0;
        while i < self.entries.len()
            invariant
                metas_view(self.entries@) == config_table(),
                i <= self.entries@.len(),
                pred == (|m: ConfigMetaView| risk_rank(m.risk) <= risk_rank(*max_risk)),
                metas_view(out@) == config_table().subrange(0, i as int).filter(pred),
            decreases self.entries@.len() - i,
        {
            let d = self.entries[i];
            assert(metas_view(self.entries@)[i as int] == config_table()[i as int]);
            proof {
                lemma_filter_step(config_table(), i as int, pred);
            }
            let ghost before = out@;
            if d.meta().risk.at_most(max_risk) {
                out.push(d);
                assert(metas_view(out@) =~= metas_view(before).push(d.spec_meta().view()));
            }
            i = i + 1;
        }
        assert(config_table().subrange(0, 8) =~= config_table());
        out
    }

    /// The configurations a profile may include: reversible, with at least one
    /// relevant benchmark among the available capabilities. Configurations
    /// that need a reboot are included.
    pub fn eligible_for_profiles(&self, available_capabilities: &[&str]) -> (r: Vec<
        ConfigDefinition,
    >)
        ensures
            metas_view(r@) == config_table().filter(
                |m: ConfigMetaView|
                    m.reversible && measurable(m.relevance, strs_view(available_capabilities@)),
            ),
    {
        proof {
            use_type_invariant(self);
        }
        let ghost caps = strs_view(available_capabilities@);
        let ghost pred = |m: ConfigMetaView| m.reversible && measurable(m.relevance, caps);
        let mut out: Vec<ConfigDefinition> = Vec::new();
        let mut i: usize = 0;
        while i < self.entries.len()
            invariant
                metas_view(self.entries@) == config_table(),
                i <= self.entries@.len(),
                caps == strs_view(available_capabilities@),
                pred == (|m: ConfigMetaView| m.reversible && measurable(m.relevance, caps)),
                metas_view(out@) == config_table().subrange(0, i as int).filter(pred),
            decreases self.entries@.len() - i,
        {
            let d = self.entries[i];
            assert(metas_view(self.entries@)[i as int] == config_table()[i as int]);
            proof {
                lemma_filter_step(config_table(), i as int, pred);
            }
            let ghost before = out@;
            let m = d.meta();
            if m.reversible && m.has_measurable_evidence(available_capabilities) {
                out.push(d);
                assert(metas_view(out@) =~= metas_view(before).push(d.spec_meta().view()));
            }
            i = i + 1;
        }
        assert(config_table().subrange(0, 8) =~= config_table());
        out
    }

    /// How many configurations need a reboot (and so stay out of the automatic
    /// evidence pipeline).
    pub fn reboot_required_count(&self) -> (n: usize)
        ensures
            n == config_table().filter(|m: ConfigMetaView| m.requires_reboot).len(),
    {
        proof {
            use_type_invariant(self);
        }
        let ghost pred = |m: ConfigMetaView| m.requires_reboot;
        assert(self.entries@.len() == metas_view(self.entries@).len());
        let mut n: usize = 0;
        let mut i: usize = 0;
        while i < self.entries.len()
            invariant
                metas_view(self.entries@) == config_table(),
                i <= self.entries@.len(),
                self.entries@.len() == 8,
                n <= i,
                pred == (|m: ConfigMetaView| m.requires_reboot),
                n == config_table().subrange(0, i as int).filter(pred).len(),
            decreases self.entries@.len() - i,
        {
            assert(metas_view(self.entries@)[i as int] == config_table()[i as int]);
            proof {
                lemma_filter_step(config_table(), i as int, pred);
            }
            if self.entries[i].meta().requires_reboot {
                n = n + 1;
            }
            i = i + 1;
        }
        assert(config_table().subrange(0, 8) =~= config_table());
        n
    }
}

// ───────────────────────── Laws ─────────────────────────

/// No two registered configurations share an id.
pub proof fn lemma_config_ids_distinct()
    ensures
        all_distinct(config_ids()),
        config_ids().len() == 8,
{
    reveal_strlit("gpu_hardware_scheduling");
    reveal_strlit("visual_effects_gaming");
    reveal_strlit("cpu_core_parking");
    reveal_strlit("timer_resolution");
    reveal_strlit("hpet");
    reveal_strlit("power_plan_high_performance");
    reveal_strlit("power_plan_balanced");
    reveal_strlit("power_plan_power_saver");
    let ids = config_ids();
    assert forall|i: int, j: int| 0 <= i < j < ids.len() implies ids[i] != ids[j] by {
        lemma_heads_differ(ids[i], ids[j]);
    }
}

/// Every registered configuration is reversible and is measured by at least
/// one benchmark suite.
pub proof fn lemma_table_reversible_and_measured()
    ensures
        forall|i: int| 0 <= i < config_table().len() ==> (#[trigger] config_table()[i]).reversible,
        forall|i: int|
            0 <= i < config_table().len() ==> (#[trigger] config_table()[i]).relevance.len() > 0,
{
}

/// With no capability available, no configuration is measurable.
pub proof fn lemma_nothing_measurable_without_capabilities(relevance: Seq<Seq<char>>)
    ensures
        !measurable(relevance, Seq::<Seq<char>>::empty()),
{
}

} // verus!
