//! Decisions of the optimization engine: how an optimization id is resolved,
//! how a registered configuration becomes a reversible run, which benchmark a
//! suite runs, and how a startup item is disabled. Snapshots, benchmarks and
//! storage are the caller's part.
use vstd::prelude::*;
use crate::catalog::{catalog_ids, CatalogEntry};
use crate::configs::{category_key, config_ids, ConfigMeta, ConfigRegistry, ConfigRisk};
use crate::contracts::OptimizationInfo;
use crate::profiles::{action_failed, action_ready, build_action, unsupported_reason, expected_action, read_error, ConfigAction, SystemState};
use crate::rollback::ReversibleAction;
use crate::text::{owned, str_eq};

verus! {

/// What an optimization id names: a catalog entry first, else a registered
/// configuration.
pub enum RunTarget {
    Catalog(CatalogEntry),
    Config(ConfigMeta),
    NotFound,
}

/// Resolves an optimization id: the catalog first, then the configuration
/// registry (so configurations recommended by id run too).
pub fn resolve(id: &str, temp_dirs: &[String]) -> (r: RunTarget)
    ensures
        r matches RunTarget::Catalog(e) ==> catalog_ids().contains(id@) && e.spec_meta().id == id@,
        r matches RunTarget::Config(m) ==> !catalog_ids().contains(id@) && config_ids().contains(id@) && m.view().id == id@,
        r is NotFound <==> !catalog_ids().contains(id@) && !config_ids().contains(id@),
{
    match crate::catalog::get(id, temp_dirs) {
        Some(e) => RunTarget::Catalog(e),
        None => {
            let registry = ConfigRegistry::new();
            match registry.find(id) {
                Some(d) => RunTarget::Config(*d.meta()),
                None => RunTarget::NotFound,
            }
        },
    }
}

/// The message when an id names nothing.
pub fn not_found_message() -> (m: &'static str)
    ensures
        m@ == "Otimização não encontrada"@,
{
    "Otimização não encontrada"
}

/// The capitalized risk shown for a configuration run.
pub open spec fn run_risk_key(r: ConfigRisk) -> Seq<char> {
    match r {
        ConfigRisk::Safe => "Safe"@,
        ConfigRisk::Moderate => "Moderate"@,
        ConfigRisk::Advanced => "Advanced"@,
    }
}

/// The optimization record of a configuration: its metadata, the description
/// doubling as the expected impact.
pub fn config_info(m: &ConfigMeta) -> (info: OptimizationInfo)
    ensures
        info.id@ == m.id@,
        info.name@ == m.name@,
        info.description@ == m.description@,
        info.category@ == category_key(m.category),
        info.risk@ == run_risk_key(m.risk),
        info.expected_impact@ == m.description@,
        info.requires_elevation == m.requires_elevation,
        info.requires_reboot == m.requires_reboot,
{
    let risk = match m.risk {
        ConfigRisk::Safe => "Safe",
        ConfigRisk::Moderate => "Moderate",
        ConfigRisk::Advanced => "Advanced",
    };
    OptimizationInfo {
        id: owned(m.id),
        name: owned(m.name),
        description: owned(m.description),
        category: owned(m.category.as_str()),
        risk: owned(risk),
        expected_impact: owned(m.description),
        requires_elevation: m.requires_elevation,
        requires_reboot: m.requires_reboot,
    }
}

/// The reversible action that runs a registered configuration: an error with
/// the reason when the adapter does not support it here, or with the message
/// of a failed read.
pub fn config_run_action(id: &str, st: &SystemState) -> (r: Result<ReversibleAction, String>)
    ensures
        r matches Ok(a) ==> action_ready(id@, *st) && expected_action(id@, *st, a),
        r is Ok <==> action_ready(id@, *st),
        action_failed(id@, *st) ==> (r matches Err(e) && e@ == read_error(id@, *st)),
        !action_ready(id@, *st) && !action_failed(id@, *st) ==> (r matches Err(e) && e@ == unsupported_reason(id@)),
{
    match build_action(id, st) {
        Ok(ConfigAction::Executable(a)) => Ok(a),
        Ok(ConfigAction::Unsupported { reason }) => Err(owned(reason)),
        Err(e) => Err(e),
    }
}

/// The benchmark run for a suite.
#[derive(Debug, Clone, Copy, PartialEq, Eq, Structural)]
pub enum SuiteRun {
    Ram,
    Io,
    Complete,
    Cpu,
}

/// Which benchmark a suite runs and how many times: RAM 5, I/O 3, the
/// complete suite 3, anything else the CPU 5.
pub fn suite_run(suite: &str) -> (r: (SuiteRun, u32))
    ensures
        suite@ == "ram-1.0.0"@ ==> r == (SuiteRun::Ram, 5u32),
        suite@ == "io-1.0.0"@ ==> r == (SuiteRun::Io, 3u32),
        suite@ == "complete-1.0.0"@ ==> r == (SuiteRun::Complete, 3u32),
        suite@ != "ram-1.0.0"@ && suite@ != "io-1.0.0"@ && suite@ != "complete-1.0.0"@ ==> r == (SuiteRun::Cpu, 5u32),
{
    proof {
        reveal_strlit("ram-1.0.0");
        reveal_strlit("io-1.0.0");
        reveal_strlit("complete-1.0.0");
        assert("ram-1.0.0"@.len() == 9);
        assert("io-1.0.0"@.len() == 8);
        assert("complete-1.0.0"@.len() == 14);
    }
    if str_eq(suite, "ram-1.0.0") {
        (SuiteRun::Ram, 5)
    } else if str_eq(suite, "io-1.0.0") {
        (SuiteRun::Io, 3)
    } else if str_eq(suite, "complete-1.0.0") {
        (SuiteRun::Complete, 3)
    } else {
        (SuiteRun::Cpu, 5)
    }
}

/// The user's startup key (HKCU), reversible without elevation.
pub const STARTUP_RUN_KEY: &'static str = "Software\\Microsoft\\Windows\\CurrentVersion\\Run";

/// Disabling a startup item removes its value, keeping the command as the old
/// value so that a rollback writes it back; an item not found under HKCU is an
/// error (HKLM items need an administrator).
pub fn startup_disable_action(name: &str, current: Option<String>) -> (r: Result<ReversibleAction, &'static str>)
    ensures
        current is None ==> (r matches Err(m) && m@ == "Item de inicialização não encontrado em HKCU (itens HKLM exigem administrador)."@),
        current matches Some(c) ==> (r matches Ok(ReversibleAction::RegistryHkcu { subkey, name: n, old, new })
            && subkey@ == STARTUP_RUN_KEY@ && n@ == name@ && old == Some(c) && new is None),
{
    match current {
        Some(c) => Ok(ReversibleAction::RegistryHkcu { subkey: owned(STARTUP_RUN_KEY), name: owned(name), old: Some(c), new: None }),
        None => Err("Item de inicialização não encontrado em HKCU (itens HKLM exigem administrador)."),
    }
}

/// The snapshot reason of a startup item being disabled.
pub fn startup_snapshot_reason(name: &str) -> (r: String)
    ensures
        r@ == "startup:disable:"@ + name@,
{
    crate::text::concat2("startup:disable:", name)
}

/// The snapshot reason of an optimization run.
pub fn optimize_snapshot_reason(id: &str) -> (r: String)
    ensures
        r@ == "optimize:"@ + id@,
{
    crate::text::concat2("optimize:", id)
}

/// A registered configuration that the adapter does not support is refused
/// with the adapter's own reason, which is never the not-found message: only
/// an id that names nothing is "not found".
pub proof fn lemma_unsupported_is_not_not_found(id: Seq<char>)
    ensures
        unsupported_reason(id) != "Otimização não encontrada"@,
{
    reveal_strlit("Otimização não encontrada");
    reveal_strlit("plano de energia não disponível nesta instalação (powercfg /list)");
    reveal_strlit("requer privilégios de administrador (execute o TkSpeed como administrador)");
    reveal_strlit("requer NtSetTimerResolution — não implementado nesta versão");
    reveal_strlit("requer powercfg de núcleos — não implementado nesta versão");
    reveal_strlit("requer bcdedit — não implementado nesta versão");
    reveal_strlit("config não reconhecida pelo executor");
    assert("Otimização não encontrada"@[0] == 'O');
}

} // verus!
