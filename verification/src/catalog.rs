//! Catalog of optimizations.
//!
//! Every optimization only declares its plan (old state → new state, as
//! `ReversibleAction`s); the engine applies, verifies and reverts generically.
//! `validation()` says how the effect is proved. The plan of each optimization
//! is computed here from what the caller read from the system (the registry,
//! the power plans, elevation, the GPUs present, the files found).

use vstd::prelude::*;

use crate::contracts::{OptimizationInfo, StartupItem};
use crate::rollback::{opt_view, ReversibleAction};
use crate::text::{all_distinct, contains_str, decimal, lowercase_of, owned, push_decimal, seq_contains, str_eq, to_lowercase};

verus! {

/// How the effect of an optimization is validated.
#[derive(Debug, Clone, Copy)]
pub enum Validation {
    /// Automatic benchmark (suite) before and after; the confidence engine decides.
    Benchmark(&'static str),
    /// No benchmark: the proof is the space freed (cleanups).
    SpaceFreed,
    /// Provable only by hand (e.g. in-game FPS). Applied and left pending evidence.
    Manual,
}

/// What an optimization will change, for the user to review.
#[derive(Debug, Clone)]
pub struct Preview {
    pub summary: String,
    pub changes: Vec<String>,
}

/// The public metadata of an optimization as plain values.
pub struct InfoView {
    pub id: Seq<char>,
    pub name: Seq<char>,
    pub description: Seq<char>,
    pub category: Seq<char>,
    pub risk: Seq<char>,
    pub expected_impact: Seq<char>,
    pub requires_elevation: bool,
    pub requires_reboot: bool,
}

/// A preview as plain values.
pub struct PreviewView {
    pub summary: Seq<char>,
    pub changes: Seq<Seq<char>>,
}

/// The views of a list of strings.
pub open spec fn strings_view(v: Seq<String>) -> Seq<Seq<char>> {
    v.map_values(|s: String| s@)
}

pub open spec fn info_view(i: OptimizationInfo) -> InfoView {
    InfoView {
        id: i.id@,
        name: i.name@,
        description: i.description@,
        category: i.category@,
        risk: i.risk@,
        expected_impact: i.expected_impact@,
        requires_elevation: i.requires_elevation,
        requires_reboot: i.requires_reboot,
    }
}

pub open spec fn preview_view(p: Preview) -> PreviewView {
    PreviewView { summary: p.summary@, changes: strings_view(p.changes@) }
}

/// Metadata built from its parts.
pub open spec fn make_info(
    id: Seq<char>,
    name: Seq<char>,
    description: Seq<char>,
    category: Seq<char>,
    risk: Seq<char>,
    impact: Seq<char>,
    requires_elevation: bool,
    requires_reboot: bool,
) -> InfoView {
    InfoView {
        id,
        name,
        description,
        category,
        risk,
        expected_impact: impact,
        requires_elevation,
        requires_reboot,
    }
}

fn info(
    id: &str,
    name: &str,
    description: &str,
    category: &str,
    risk: &str,
    impact: &str,
    requires_elevation: bool,
    requires_reboot: bool,
) -> (r: OptimizationInfo)
    ensures
        info_view(r) == make_info(
            id@,
            name@,
            description@,
            category@,
            risk@,
            impact@,
            requires_elevation,
            requires_reboot,
        ),
{
    OptimizationInfo {
        id: owned(id),
        name: owned(name),
        description: owned(description),
        category: owned(category),
        risk: owned(risk),
        expected_impact: owned(impact),
        requires_elevation,
        requires_reboot,
    }
}

fn preview_one(summary: String, change: &str) -> (p: Preview)
    ensures
        preview_view(p) == (PreviewView { summary: summary@, changes: seq![change@] }),
{
    let mut changes: Vec<String> = Vec::new();
    changes.push(owned(change));
    let p = Preview { summary, changes };
    assert(strings_view(p.changes@) =~= seq![change@]);
    p
}

/// `<hive>\<subkey>\<value> = <n>`.
pub open spec fn dword_summary(hive: Seq<char>, subkey: Seq<char>, value: Seq<char>, n: u32) -> Seq<
    char,
> {
    hive + "\\"@ + subkey + "\\"@ + value + " = "@ + decimal(n as nat)
}

fn dword_summary_string(hive: &str, subkey: &str, value: &str, n: u32) -> (s: String)
    ensures
        s@ == dword_summary(hive@, subkey@, value@, n),
{
    let mut s = owned(hive);
    s.append("\\");
    s.append(subkey);
    s.append("\\");
    s.append(value);
    s.append(" = ");
    push_decimal(&mut s, n as u64);
    s
}

/// Error of a plan: the message to show.
pub open spec fn err_is(r: Result<Vec<ReversibleAction>, String>, msg: Seq<char>) -> bool {
    r matches Err(m) && m@ == msg
}

/// The plan is the single given action.
pub open spec fn single_action(r: Result<Vec<ReversibleAction>, String>, pred: spec_fn(ReversibleAction) -> bool) -> bool {
    r matches Ok(v) && v@.len() == 1 && pred(v@[0])
}

/// An HKCU DWORD action with the given key, old value and new value.
pub open spec fn hkcu_dword_action(subkey: Seq<char>, name: Seq<char>, old: Option<u32>, new: Option<u32>) -> spec_fn(ReversibleAction) -> bool {
    |a: ReversibleAction| a matches ReversibleAction::RegistryHkcuDword { subkey: s, name: n, old: o, new: w }
        && s@ == subkey && n@ == name && o == old && w == new
}

/// An HKLM DWORD action with the given key, old value and new value.
pub open spec fn hklm_dword_action(subkey: Seq<char>, name: Seq<char>, old: Option<u32>, new: Option<u32>) -> spec_fn(ReversibleAction) -> bool {
    |a: ReversibleAction| a matches ReversibleAction::RegistryHklmDword { subkey: s, name: n, old: o, new: w }
        && s@ == subkey && n@ == name && o == old && w == new
}

fn one_action(a: ReversibleAction) -> (v: Vec<ReversibleAction>)
    ensures
        v@ == seq![a],
{
    let mut v: Vec<ReversibleAction> = Vec::new();
    v.push(a);
    assert(v@ =~= seq![a]);
    v
}

fn copy_error(e: &String) -> (r: Result<Vec<ReversibleAction>, String>)
    ensures
        r matches Err(m) && m@ == e@,
{
    Err(owned(e.as_str()))
}

// ───────────────────────── Power plan ─────────────────────────

/// GUID of the Ultimate Performance power plan.
pub const ULTIMATE_PERF_GUID: &'static str = "e9a42b02-d5df-448d-aa00-03f14749eb61";

/// GUID of the High Performance power plan.
pub const HIGH_PERF_GUID: &'static str = "8c5e7fda-e8bf-4a96-9a85-a6e23a8c635c";

/// Most files one cleanup moves to quarantine.
pub const MAX_CLEANUP_FILES: usize = 4000;

/// Switch to the High Performance power plan.
#[derive(Debug, Clone, Copy, PartialEq, Eq, Structural)]
pub struct PowerPlanHigh;

/// Next step of planning the power plan switch: a finished plan, or a plan
/// GUID to make available (`powercfg /duplicatescheme`) before deciding.
#[derive(Debug)]
pub enum PowerPlanStep {
    Done(Result<Vec<ReversibleAction>, String>),
    Ensure(&'static str),
}

/// A power-plan action from `old` to `new`.
pub open spec fn power_action(old: Seq<char>, new: Seq<char>) -> spec_fn(ReversibleAction) -> bool {
    |a: ReversibleAction| a matches ReversibleAction::PowerPlan { old_guid, new_guid } && old_guid@ == old && new_guid@ == new
}

impl PowerPlanHigh {
    pub open spec fn spec_meta(self) -> InfoView {
        make_info(
            "energy.power_plan_high"@,
            "Plano de Energia: Alto Desempenho"@,
            "Ativa o plano de Alto Desempenho do Windows (mantém os clocks da CPU elevados sob carga)."@,
            "energy"@,
            "Moderate"@,
            "Mantém os clocks da CPU elevados sob carga — ganho visível em jogos e cargas sustentadas."@,
            false,
            false,
        )
    }

    pub fn meta(&self) -> (r: OptimizationInfo)
        ensures
            info_view(r) == self.spec_meta(),
    {
        info(
            "energy.power_plan_high",
            "Plano de Energia: Alto Desempenho",
            "Ativa o plano de Alto Desempenho do Windows (mantém os clocks da CPU elevados sob carga).",
            "energy",
            "Moderate",
            "Mantém os clocks da CPU elevados sob carga — ganho visível em jogos e cargas sustentadas.",
            false,
            false,
        )
    }

    pub fn validation(&self) -> (v: Validation)
        ensures
            v == Validation::Manual,
    {
        Validation::Manual
    }

    pub open spec fn spec_preview(self) -> PreviewView {
        PreviewView {
            summary: "Trocar o plano de energia ativo para Alto Desempenho"@,
            changes: seq!["Plano de energia ativo → Alto Desempenho"@],
        }
    }

    pub fn preview(&self) -> (p: Preview)
        ensures
            preview_view(p) == self.spec_preview(),
    {
        preview_one(
            owned("Trocar o plano de energia ativo para Alto Desempenho"),
            "Plano de energia ativo → Alto Desempenho",
        )
    }

    /// First step of the plan, from the active plan and the best
    /// high-performance plan found by name (OEM and localized plans count). A
    /// plan found and already active is an error; none found asks to make the
    /// Ultimate Performance plan available first.
    pub fn plan_start(&self, active: &Result<String, String>, found: &Option<String>) -> (s: PowerPlanStep)
        ensures
            match active {
                Err(e) => s matches PowerPlanStep::Done(r) && r matches Err(m) && m@ == e@,
                Ok(old) => match found {
                    Some(g) => if g@ == old@ {
                        s matches PowerPlanStep::Done(r) && err_is(r, "Plano de alto desempenho já está ativo."@)
                    } else {
                        s matches PowerPlanStep::Done(r) && single_action(r, power_action(old@, g@))
                    },
                    None => s matches PowerPlanStep::Ensure(g) && g@ == ULTIMATE_PERF_GUID@,
                },
            },
    {
        match active {
            Err(e) => PowerPlanStep::Done(copy_error(e)),
            Ok(old) => match found {
                Some(g) => {
                    if str_eq(g.as_str(), old.as_str()) {
                        PowerPlanStep::Done(Err(owned("Plano de alto desempenho já está ativo.")))
                    } else {
                        PowerPlanStep::Done(
                            Ok(
                                one_action(
                                    ReversibleAction::PowerPlan {
                                        old_guid: owned(old.as_str()),
                                        new_guid: owned(g.as_str()),
                                    },
                                ),
                            ),
                        )
                    }
                },
                None => PowerPlanStep::Ensure(ULTIMATE_PERF_GUID),
            },
        }
    }

    /// Next step once the plan `guid` was made available (`ensured`) or not.
    /// Ultimate Performance failing falls back to High Performance; both
    /// failing is an error.
    pub fn plan_after_ensure(&self, old: &str, guid: &str, ensured: bool) -> (s: PowerPlanStep)
        ensures
            ensured && guid@ == ULTIMATE_PERF_GUID@ && old@ == ULTIMATE_PERF_GUID@ ==> (s matches PowerPlanStep::Done(r)
                && err_is(r, "Plano Ultimate Performance já está ativo."@)),
            ensured && guid@ == ULTIMATE_PERF_GUID@ && old@ != ULTIMATE_PERF_GUID@ ==> (s matches PowerPlanStep::Done(r)
                && single_action(r, power_action(old@, ULTIMATE_PERF_GUID@))),
            !ensured && guid@ == ULTIMATE_PERF_GUID@ ==> (s matches PowerPlanStep::Ensure(g) && g@ == HIGH_PERF_GUID@),
            guid@ != ULTIMATE_PERF_GUID@ && ensured && old@ == HIGH_PERF_GUID@ ==> (s matches PowerPlanStep::Done(r)
                && err_is(r, "Plano Alto Desempenho já está ativo."@)),
            guid@ != ULTIMATE_PERF_GUID@ && ensured && old@ != HIGH_PERF_GUID@ ==> (s matches PowerPlanStep::Done(r)
                && single_action(r, power_action(old@, HIGH_PERF_GUID@))),
            guid@ != ULTIMATE_PERF_GUID@ && !ensured ==> (s matches PowerPlanStep::Done(r) && err_is(
                r,
                "Windows não permitiu ativar ou criar um plano de alto desempenho nesta instalação."@,
            )),
    {
        if str_eq(guid, ULTIMATE_PERF_GUID) {
            if ensured {
                if str_eq(old, ULTIMATE_PERF_GUID) {
                    PowerPlanStep::Done(Err(owned("Plano Ultimate Performance já está ativo.")))
                } else {
                    PowerPlanStep::Done(
                        Ok(
                            one_action(
                                ReversibleAction::PowerPlan {
                                    old_guid: owned(old),
                                    new_guid: owned(ULTIMATE_PERF_GUID),
                                },
                            ),
                        ),
                    )
                }
            } else {
                PowerPlanStep::Ensure(HIGH_PERF_GUID)
            }
        } else if ensured {
            if str_eq(old, HIGH_PERF_GUID) {
                PowerPlanStep::Done(Err(owned("Plano Alto Desempenho já está ativo.")))
            } else {
                PowerPlanStep::Done(
                    Ok(
                        one_action(
                            ReversibleAction::PowerPlan {
                                old_guid: owned(old),
                                new_guid: owned(HIGH_PERF_GUID),
                            },
                        ),
                    ),
                )
            }
        } else {
            PowerPlanStep::Done(
                Err(
                    owned(
                        "Windows não permitiu ativar ou criar um plano de alto desempenho nesta instalação.",
                    ),
                ),
            )
        }
    }
}

// ───────────────────────── Shared plan shapes ─────────────────────────

/// Plan of a DWORD toward `target`: the read error, the "already set" error,
/// or the single action from the old value to `target`.
pub open spec fn dword_plan_spec(
    r: Result<Vec<ReversibleAction>, String>,
    hklm: bool,
    subkey: Seq<char>,
    value: Seq<char>,
    target: u32,
    already: Seq<char>,
    old: Result<Option<u32>, String>,
) -> bool {
    match old {
        Err(e) => r matches Err(m) && m@ == e@,
        Ok(o) => if o == Some(target) {
            err_is(r, already)
        } else if hklm {
            single_action(r, hklm_dword_action(subkey, value, o, Some(target)))
        } else {
            single_action(r, hkcu_dword_action(subkey, value, o, Some(target)))
        },
    }
}

fn dword_plan(
    hklm: bool,
    subkey: &str,
    value: &str,
    target: u32,
    already: &str,
    old: &Result<Option<u32>, String>,
) -> (r: Result<Vec<ReversibleAction>, String>)
    ensures
        dword_plan_spec(r, hklm, subkey@, value@, target, already@, *old),
{
    match old {
        Err(e) => copy_error(e),
        Ok(o) => {
            if *o == Some(target) {
                Err(owned(already))
            } else if hklm {
                Ok(
                    one_action(
                        ReversibleAction::RegistryHklmDword {
                            subkey: owned(subkey),
                            name: owned(value),
                            old: *o,
                            new: Some(target),
                        },
                    ),
                )
            } else {
                Ok(
                    one_action(
                        ReversibleAction::RegistryHkcuDword {
                            subkey: owned(subkey),
                            name: owned(value),
                            old: *o,
                            new: Some(target),
                        },
                    ),
                )
            }
        },
    }
}

/// Message of a missing GPU vendor.
pub open spec fn no_vendor_msg(vendor: Seq<char>) -> Seq<char> {
    "GPU "@ + vendor + " não detectada neste sistema."@
}

/// Whether `vendor` is among the detected GPU vendors.
pub open spec fn has_vendor(vendors: Seq<String>, vendor: Seq<char>) -> bool {
    exists|i: int| 0 <= i < vendors.len() && (#[trigger] vendors[i])@ == vendor
}

fn vendor_present(vendors: &[String], vendor: &str) -> (b: bool)
    ensures
        b == has_vendor(vendors@, vendor@),
{
    let mut i: usize = 0;
    while i < vendors.len()
        invariant
            i <= vendors@.len(),
            forall|k: int| 0 <= k < i ==> (#[trigger] vendors@[k])@ != vendor@,
        decreases vendors@.len() - i,
    {
        if str_eq(vendors[i].as_str(), vendor) {
            return true;
        }
        i = i + 1;
    }
    false
}

fn no_vendor_error(vendor: &str) -> (r: Result<Vec<ReversibleAction>, String>)
    ensures
        err_is(r, no_vendor_msg(vendor@)),
{
    let mut s = owned("GPU ");
    s.append(vendor);
    s.append(" não detectada neste sistema.");
    Err(s)
}

// ───────────────────────── Cleanups (space freed) ─────────────────────────

/// A file found by a cleanup scan: its path, its file name (if any) and size.
#[derive(Debug, Clone)]
pub struct FoundFile {
    pub path: String,
    pub file_name: Option<String>,
    pub size: u64,
}

/// Generic cleanup: moves old files of some directories to quarantine.
#[derive(Debug, Clone)]
pub struct FileCleanup {
    pub id: &'static str,
    pub name: &'static str,
    pub description: &'static str,
    pub dirs: Vec<String>,
    pub min_age_days: u64,
    pub exts: Vec<&'static str>,
    pub requires_elevation: bool,
    pub depth: usize,
}

fn copy_strings(v: &[String]) -> (r: Vec<String>)
    ensures
        strings_view(r@) == strings_view(v@),
{
    let mut r: Vec<String> = Vec::new();
    let mut i: usize = 0;
    while i < v.len()
        invariant
            i <= v@.len(),
            strings_view(r@) =~= strings_view(v@).subrange(0, i as int),
        decreases v@.len() - i,
    {
        let ghost before = r@;
        r.push(owned(v[i].as_str()));
        assert(strings_view(r@) =~= strings_view(before).push(v@[i as int]@));
        assert(strings_view(v@).subrange(0, i + 1) =~= strings_view(v@).subrange(0, i as int).push(
            v@[i as int]@,
        ));
        i = i + 1;
    }
    assert(strings_view(v@).subrange(0, v@.len() as int) =~= strings_view(v@));
    r
}

/// Quarantine path of the `idx`-th file moved: `<base>\<idx>_<name>`.
pub open spec fn quarantine_path(base: Seq<char>, idx: nat, file_name: Option<String>) -> Seq<char> {
    base + "\\"@ + decimal(idx) + "_"@ + match file_name {
        Some(n) => n@,
        None => "f"@,
    }
}

/// Whether `a` moves the `i`-th file found to its quarantine path.
pub open spec fn quarantines(a: ReversibleAction, f: FoundFile, base: Seq<char>, i: nat) -> bool {
    a matches ReversibleAction::FileQuarantine { original, quarantine, size } && original@ == f.path@
        && quarantine@ == quarantine_path(base, i, f.file_name) && size == f.size
}

/// Files moved under different indices get different quarantine paths: the
/// index, in decimal and followed by `_`, is read back from the path.
pub proof fn lemma_quarantine_paths_distinct(
    base: Seq<char>,
    i: nat,
    j: nat,
    a: Option<String>,
    b: Option<String>,
)
    requires
        i != j,
    ensures
        quarantine_path(base, i, a) != quarantine_path(base, j, b),
{
    crate::rollback::lemma_decimal_digits(i);
    crate::rollback::lemma_decimal_digits(j);
    reveal_strlit("\\");
    reveal_strlit("_");
    let p = base + "\\"@;
    let di = decimal(i);
    let dj = decimal(j);
    let na = match a {
        Some(n) => n@,
        None => "f"@,
    };
    let nb = match b {
        Some(n) => n@,
        None => "f"@,
    };
    let x = quarantine_path(base, i, a);
    let y = quarantine_path(base, j, b);
    assert(x == p + di + "_"@ + na);
    assert(y == p + dj + "_"@ + nb);
    let n = p.len() as int;
    if x == y {
        if di.len() < dj.len() {
            assert(x[n + di.len()] == '_');
            assert(y[n + di.len()] == dj[di.len() as int]);
        } else if dj.len() < di.len() {
            assert(y[n + dj.len()] == '_');
            assert(x[n + dj.len()] == di[dj.len() as int]);
        } else {
            assert(x.subrange(n, n + di.len()) =~= di);
            assert(y.subrange(n, n + dj.len()) =~= dj);
        }
    }
}

/// The quarantine paths of a cleanup plan are pairwise different.
pub open spec fn quarantine_paths_distinct(v: Seq<ReversibleAction>) -> bool {
    forall|i: int, j: int|
        0 <= i < v.len() && 0 <= j < v.len() && i != j ==> (#[trigger] v[i] matches ReversibleAction::FileQuarantine {
            quarantine: qi,
            ..
        } && #[trigger] v[j] matches ReversibleAction::FileQuarantine { quarantine: qj, .. } && qi@ != qj@)
}

/// The quarantine actions for the first files found, up to the limit.
pub open spec fn cleanup_actions_ok(v: Seq<ReversibleAction>, found: Seq<FoundFile>, base: Seq<char>) -> bool {
    &&& v.len() == if found.len() < MAX_CLEANUP_FILES { found.len() } else { MAX_CLEANUP_FILES as nat }
    &&& forall|i: int| 0 <= i < v.len() ==> quarantines(#[trigger] v[i], found[i], base, i as nat)
}

/// Whether a file is selected by a cleanup: its extension (lowercased; empty
/// when it has none) is one of `exts`, unless `exts` is empty, and, when a
/// minimum age is set, its age in whole seconds is known and reaches
/// `min_age_days` days (an unreadable or future modification time skips it).
pub open spec fn file_selected_by(exts: Seq<Seq<char>>, min_age_days: u64, ext: Seq<char>, age_secs: Option<u64>) -> bool {
    &&& (exts.len() == 0 || exts.contains(lowercase_of(ext)))
    &&& (min_age_days == 0 || (age_secs matches Some(a) && a >= min_age_days * 86400))
}

impl FileCleanup {
    /// Whether the scan selects a file with extension `ext` (empty when it has
    /// none) whose age is `age_secs` whole seconds (`None` when the
    /// modification time cannot be read or lies in the future).
    pub fn selects_file(&self, ext: &str, age_secs: Option<u64>) -> (b: bool)
        ensures
            b == file_selected_by(self.view().exts, self.min_age_days, ext@, age_secs),
    {
        if self.exts.len() > 0 {
            let lower = to_lowercase(ext);
            let mut found = false;
            let mut i: usize = 0;
            while i < self.exts.len()
                invariant
                    i <= self.exts@.len(),
                    lower@ == lowercase_of(ext@),
                    found == exists|k: int| 0 <= k < i && (#[trigger] self.exts@[k])@ == lower@,
                decreases self.exts@.len() - i,
            {
                if str_eq(self.exts[i], lower.as_str()) {
                    found = true;
                }
                i = i + 1;
            }
            proof {
                let ev = self.view().exts;
                if found {
                    let k = choose|k: int| 0 <= k < self.exts@.len() && (#[trigger] self.exts@[k])@ == lower@;
                    assert(ev[k] == lowercase_of(ext@));
                } else {
                    assert forall|k: int| 0 <= k < ev.len() implies ev[k] != lowercase_of(ext@) by {
                        assert(ev[k] == self.exts@[k]@);
                    }
                }
            }
            if !found {
                return false;
            }
        }
        if self.min_age_days > 0 {
            match age_secs {
                Some(a) => (a as u128) >= (self.min_age_days as u128) * 86400,
                None => false,
            }
        } else {
            true
        }
    }

    /// The depth left for a subdirectory: the scan enters it only while depth
    /// remains.
    pub fn subdir_depth(depth: usize) -> (r: Option<usize>)
        ensures
            depth > 0 ==> r == Some((depth - 1) as usize),
            depth == 0 ==> r is None,
    {
        if depth > 0 {
            Some(depth - 1)
        } else {
            None
        }
    }

    /// Old temporary files (at least one day old), two levels deep.
    pub fn temp_files(temp_dirs: &[String]) -> (c: Self)
        ensures
            c.view() == (FileCleanupView {
                id: "cleanup.temp_files",
                name: "Limpeza de Temporários",
                description: "Move arquivos temporários antigos para a quarentena (recuperáveis).",
                dirs: strings_view(temp_dirs@),
                min_age_days: 1,
                exts: Seq::empty(),
                requires_elevation: false,
                depth: 2,
            }),
    {
        let c = FileCleanup {
            id: "cleanup.temp_files",
            name: "Limpeza de Temporários",
            description: "Move arquivos temporários antigos para a quarentena (recuperáveis).",
            dirs: copy_strings(temp_dirs),
            min_age_days: 1,
            exts: Vec::new(),
            requires_elevation: false,
            depth: 2,
        };
        assert(c.view().exts =~= Seq::<Seq<char>>::empty());
        c
    }

    /// Old logs and dumps (.log/.etl/.dmp, at least seven days old).
    pub fn old_logs(temp_dirs: &[String]) -> (c: Self)
        ensures
            c.view() == (FileCleanupView {
                id: "cleanup.old_logs",
                name: "Limpeza de Logs Antigos",
                description: "Move logs antigos (.log/.etl/.dmp) para a quarentena.",
                dirs: strings_view(temp_dirs@),
                min_age_days: 7,
                exts: seq!["log"@, "etl"@, "dmp"@],
                requires_elevation: false,
                depth: 2,
            }),
    {
        let mut exts: Vec<&'static str> = Vec::new();
        exts.push("log");
        exts.push("etl");
        exts.push("dmp");
        let c = FileCleanup {
            id: "cleanup.old_logs",
            name: "Limpeza de Logs Antigos",
            description: "Move logs antigos (.log/.etl/.dmp) para a quarentena.",
            dirs: copy_strings(temp_dirs),
            min_age_days: 7,
            exts,
            requires_elevation: false,
            depth: 2,
        };
        assert(c.exts@.map_values(|e: &str| e@) =~= seq!["log"@, "etl"@, "dmp"@]);
        c
    }

    /// Windows Update download cache (best effort; may need elevation).
    pub fn wu_cache() -> (c: Self)
        ensures
            c.view() == (FileCleanupView {
                id: "cleanup.wu_cache",
                name: "Cache do Windows Update",
                description: "Move arquivos baixados do Windows Update para a quarentena (best-effort; pode exigir admin).",
                dirs: seq!["C:\\Windows\\SoftwareDistribution\\Download"@],
                min_age_days: 0,
                exts: Seq::empty(),
                requires_elevation: true,
                depth: 1,
            }),
    {
        let mut dirs: Vec<String> = Vec::new();
        dirs.push(owned("C:\\Windows\\SoftwareDistribution\\Download"));
        let c = FileCleanup {
            id: "cleanup.wu_cache",
            name: "Cache do Windows Update",
            description: "Move arquivos baixados do Windows Update para a quarentena (best-effort; pode exigir admin).",
            dirs,
            min_age_days: 0,
            exts: Vec::new(),
            requires_elevation: true,
            depth: 1,
        };
        assert(strings_view(c.dirs@) =~= seq!["C:\\Windows\\SoftwareDistribution\\Download"@]);
        assert(c.view().exts =~= Seq::<Seq<char>>::empty());
        c
    }

    pub open spec fn spec_meta(self) -> InfoView {
        make_info(
            self.id@,
            self.name@,
            self.description@,
            "cleanup"@,
            if self.requires_elevation { "Moderate"@ } else { "Safe"@ },
            "Libera espaço em disco. NÃO aumenta FPS."@,
            self.requires_elevation,
            false,
        )
    }

    pub fn meta(&self) -> (r: OptimizationInfo)
        ensures
            info_view(r) == self.spec_meta(),
    {
        info(
            self.id,
            self.name,
            self.description,
            "cleanup",
            if self.requires_elevation { "Moderate" } else { "Safe" },
            "Libera espaço em disco. NÃO aumenta FPS.",
            self.requires_elevation,
            false,
        )
    }

    pub fn validation(&self) -> (v: Validation)
        ensures
            v == Validation::SpaceFreed,
    {
        Validation::SpaceFreed
    }

    pub open spec fn spec_preview(self) -> PreviewView {
        PreviewView {
            summary: "Mover arquivos para a quarentena (recuperável por TTL)"@,
            changes: strings_view(self.dirs@).map_values(|d: Seq<char>| "Varredura: "@ + d),
        }
    }

    pub fn preview(&self) -> (p: Preview)
        ensures
            preview_view(p) == self.spec_preview(),
    {
        let mut changes: Vec<String> = Vec::new();
        let mut i: usize = 0;
        while i < self.dirs.len()
            invariant
                i <= self.dirs@.len(),
                strings_view(changes@) =~= strings_view(self.dirs@).map_values(
                    |d: Seq<char>| "Varredura: "@ + d,
                ).subrange(0, i as int),
            decreases self.dirs@.len() - i,
        {
            let mut line = owned("Varredura: ");
            line.append(self.dirs[i].as_str());
            let ghost before = changes@;
            let ghost all = strings_view(self.dirs@).map_values(|d: Seq<char>| "Varredura: "@ + d);
            changes.push(line);
            assert(strings_view(changes@) =~= strings_view(before).push("Varredura: "@ + self.dirs@[i as int]@));
            assert(all.subrange(0, i + 1) =~= all.subrange(0, i as int).push(all[i as int]));
            i = i + 1;
        }
        let p = Preview {
            summary: owned("Mover arquivos para a quarentena (recuperável por TTL)"),
            changes,
        };
        assert(strings_view(self.dirs@).map_values(|d: Seq<char>| "Varredura: "@ + d).subrange(
            0,
            self.dirs@.len() as int,
        ) =~= strings_view(self.dirs@).map_values(|d: Seq<char>| "Varredura: "@ + d));
        p
    }

    /// Plans moving the files found by the scan to quarantine under `base`:
    /// at most `MAX_CLEANUP_FILES`, in scan order, the `i`-th one renamed
    /// `<i>_<file name>` (`f` when it has no name).
    pub fn plan_from(&self, found: &[FoundFile], base: &str) -> (r: Result<Vec<ReversibleAction>, String>)
        ensures
            r matches Ok(v) && cleanup_actions_ok(v@, found@, base@) && quarantine_paths_distinct(v@),
    {
        let mut actions: Vec<ReversibleAction> = Vec::new();
        let mut i: usize = 0;
        while i < found.len() && i < MAX_CLEANUP_FILES
            invariant
                i <= found@.len(),
                i <= MAX_CLEANUP_FILES,
                actions@.len() == i,
                forall|k: int| 0 <= k < i ==> quarantines(#[trigger] actions@[k], found@[k], base@, k as nat),
            decreases found@.len() - i,
        {
            let f = &found[i];
            let mut q = owned(base);
            q.append("\\");
            push_decimal(&mut q, i as u64);
            q.append("_");
            match &f.file_name {
                Some(n) => q.append(n.as_str()),
                None => q.append("f"),
            }
            actions.push(
                ReversibleAction::FileQuarantine {
                    original: owned(f.path.as_str()),
                    quarantine: q,
                    size: f.size,
                },
            );
            i = i + 1;
        }
        proof {
            let v = actions@;
            assert forall|a: int, b: int|
                0 <= a < v.len() && 0 <= b < v.len() && a != b implies (#[trigger] v[a] matches ReversibleAction::FileQuarantine {
                quarantine: qa,
                ..
            } && #[trigger] v[b] matches ReversibleAction::FileQuarantine { quarantine: qb, .. } && qa@ != qb@) by {
                assert(quarantines(v[a], found@[a], base@, a as nat));
                assert(quarantines(v[b], found@[b], base@, b as nat));
                lemma_quarantine_paths_distinct(base@, a as nat, b as nat, found@[a].file_name, found@[b].file_name);
            }
        }
        Ok(actions)
    }
}

// ───────────────────────── HKCU toggles (manual) ─────────────────────────

/// DWORD toggle under HKCU (manual validation).
#[derive(Debug, Clone, Copy, PartialEq, Eq)]
pub struct RegistryToggle {
    pub id: &'static str,
    pub name: &'static str,
    pub description: &'static str,
    pub impact: &'static str,
    pub subkey: &'static str,
    pub value: &'static str,
    pub on: u32,
}

impl RegistryToggle {
    /// Windows Game Mode on.
    pub fn game_mode() -> (t: Self)
        ensures
            t == (RegistryToggle {
                id: "game.game_mode",
                name: "Game Mode",
                description: "Ativa o Modo Jogo do Windows.",
                impact: "Prioriza recursos do sistema para o jogo (comprovar com captura de FPS).",
                subkey: "Software\\Microsoft\\GameBar",
                value: "AutoGameModeEnabled",
                on: 1,
            }),
    {
        RegistryToggle {
            id: "game.game_mode",
            name: "Game Mode",
            description: "Ativa o Modo Jogo do Windows.",
            impact: "Prioriza recursos do sistema para o jogo (comprovar com captura de FPS).",
            subkey: "Software\\Microsoft\\GameBar",
            value: "AutoGameModeEnabled",
            on: 1,
        }
    }

    /// Game DVR background recording off.
    pub fn xbox_game_bar() -> (t: Self)
        ensures
            t == (RegistryToggle {
                id: "game.xbox_game_bar",
                name: "Desativar Game DVR (Xbox)",
                description: "Desativa a gravação em segundo plano do Game DVR.",
                impact: "Reduz overhead de captura em segundo plano (comprovar com FPS).",
                subkey: "System\\GameConfigStore",
                value: "GameDVR_Enabled",
                on: 0,
            }),
    {
        RegistryToggle {
            id: "game.xbox_game_bar",
            name: "Desativar Game DVR (Xbox)",
            description: "Desativa a gravação em segundo plano do Game DVR.",
            impact: "Reduz overhead de captura em segundo plano (comprovar com FPS).",
            subkey: "System\\GameConfigStore",
            value: "GameDVR_Enabled",
            on: 0,
        }
    }

    pub open spec fn spec_meta(self) -> InfoView {
        make_info(self.id@, self.name@, self.description@, "game"@, "Moderate"@, self.impact@, false, false)
    }

    pub fn meta(&self) -> (r: OptimizationInfo)
        ensures
            info_view(r) == self.spec_meta(),
    {
        info(self.id, self.name, self.description, "game", "Moderate", self.impact, false, false)
    }

    pub fn validation(&self) -> (v: Validation)
        ensures
            v == Validation::Manual,
    {
        Validation::Manual
    }

    pub open spec fn spec_preview(self) -> PreviewView {
        PreviewView {
            summary: dword_summary("HKCU"@, self.subkey@, self.value@, self.on),
            changes: seq![self.impact@],
        }
    }

    pub fn preview(&self) -> (p: Preview)
        ensures
            preview_view(p) == self.spec_preview(),
    {
        preview_one(dword_summary_string("HKCU", self.subkey, self.value, self.on), self.impact)
    }

    /// Plans writing the toggle value, from the value read now.
    pub fn plan_from(&self, old: &Result<Option<u32>, String>) -> (r: Result<Vec<ReversibleAction>, String>)
        ensures
            match old {
                Err(e) => r matches Err(m) && m@ == e@,
                Ok(o) => single_action(r, hkcu_dword_action(self.subkey@, self.value@, *o, Some(self.on))),
            },
    {
        match old {
            Err(e) => copy_error(e),
            Ok(o) => Ok(
                one_action(
                    ReversibleAction::RegistryHkcuDword {
                        subkey: owned(self.subkey),
                        name: owned(self.value),
                        old: *o,
                        new: Some(self.on),
                    },
                ),
            ),
        }
    }
}

// ───────────────────────── Visual effects ─────────────────────────

/// Visual effects set for performance (`VisualFXSetting = 2`).
#[derive(Debug, Clone, Copy, PartialEq, Eq, Structural)]
pub struct VisualEffectsGaming;

/// HKCU key of the visual effects setting.
pub const VISUAL_FX_KEY: &'static str =
    "Software\\Microsoft\\Windows\\CurrentVersion\\Explorer\\VisualEffects";

impl VisualEffectsGaming {
    pub open spec fn spec_meta(self) -> InfoView {
        make_info(
            "visual_effects_gaming"@,
            "Ajustar Efeitos Visuais para Desempenho"@,
            "Configura o Windows para ajustar automaticamente os efeitos visuais priorizando desempenho (VisualFXSetting=2)."@,
            "game"@,
            "Safe"@,
            "Reduz overhead de renderização da interface. Efeito subjetivo — comprovar manualmente."@,
            false,
            false,
        )
    }

    pub fn meta(&self) -> (r: OptimizationInfo)
        ensures
            info_view(r) == self.spec_meta(),
    {
        info(
            "visual_effects_gaming",
            "Ajustar Efeitos Visuais para Desempenho",
            "Configura o Windows para ajustar automaticamente os efeitos visuais priorizando desempenho (VisualFXSetting=2).",
            "game",
            "Safe",
            "Reduz overhead de renderização da interface. Efeito subjetivo — comprovar manualmente.",
            false,
            false,
        )
    }

    pub fn validation(&self) -> (v: Validation)
        ensures
            v == Validation::Manual,
    {
        Validation::Manual
    }

    pub open spec fn spec_preview(self) -> PreviewView {
        PreviewView {
            summary: "HKCU\\Software\\Microsoft\\Windows\\CurrentVersion\\Explorer\\VisualEffects\\VisualFXSetting = 2"@,
            changes: seq!["Efeitos visuais → Ajustar para melhor desempenho"@],
        }
    }

    pub fn preview(&self) -> (p: Preview)
        ensures
            preview_view(p) == self.spec_preview(),
    {
        preview_one(
            owned("HKCU\\Software\\Microsoft\\Windows\\CurrentVersion\\Explorer\\VisualEffects\\VisualFXSetting = 2"),
            "Efeitos visuais → Ajustar para melhor desempenho",
        )
    }

    /// Plans `VisualFXSetting = 2` from the value read now.
    pub fn plan_from(&self, old: &Result<Option<u32>, String>) -> (r: Result<Vec<ReversibleAction>, String>)
        ensures
            dword_plan_spec(r, false, VISUAL_FX_KEY@, "VisualFXSetting"@, 2, "Já configurado para desempenho."@, *old),
    {
        dword_plan(false, VISUAL_FX_KEY, "VisualFXSetting", 2, "Já configurado para desempenho.", old)
    }
}

// ───────────────────────── Standby memory ─────────────────────────

/// Purges the standby list of RAM.
#[derive(Debug, Clone, Copy, PartialEq, Eq, Structural)]
pub struct MemoryStandbyClean;

impl MemoryStandbyClean {
    pub open spec fn spec_meta(self) -> InfoView {
        make_info(
            "cleanup.memory_standby"@,
            "Limpar Memória em Espera (Standby)"@,
            "Libera a standby list da RAM, devolvendo memória cached ao pool de livre. Útil antes de iniciar um jogo pesado."@,
            "cleanup"@,
            "Safe"@,
            "Pode reduzir stutters no carregamento de assets. Efeito depende de quanto está em standby — comprovar com monitor de RAM."@,
            true,
            false,
        )
    }

    pub fn meta(&self) -> (r: OptimizationInfo)
        ensures
            info_view(r) == self.spec_meta(),
    {
        info(
            "cleanup.memory_standby",
            "Limpar Memória em Espera (Standby)",
            "Libera a standby list da RAM, devolvendo memória cached ao pool de livre. Útil antes de iniciar um jogo pesado.",
            "cleanup",
            "Safe",
            "Pode reduzir stutters no carregamento de assets. Efeito depende de quanto está em standby — comprovar com monitor de RAM.",
            true,
            false,
        )
    }

    pub fn validation(&self) -> (v: Validation)
        ensures
            v == Validation::SpaceFreed,
    {
        Validation::SpaceFreed
    }

    pub open spec fn spec_preview(self, available_bytes: u64) -> PreviewView {
        PreviewView {
            summary: "Liberar standby list (~"@ + decimal((available_bytes / 1048576u64) as nat)
                + " MB disponível agora)"@,
            changes: seq!["NtSetSystemInformation(MemoryPurgeStandbyList)"@],
        }
    }

    /// Preview showing the memory available now.
    pub fn preview(&self, available_bytes: u64) -> (p: Preview)
        ensures
            preview_view(p) == self.spec_preview(available_bytes),
    {
        let mut s = owned("Liberar standby list (~");
        push_decimal(&mut s, available_bytes / (1024 * 1024));
        s.append(" MB disponível agora)");
        preview_one(s, "NtSetSystemInformation(MemoryPurgeStandbyList)")
    }

    /// Plans the purge; it needs administrator privileges.
    pub fn plan_from(&self, elevated: bool) -> (r: Result<Vec<ReversibleAction>, String>)
        ensures
            !elevated ==> err_is(r, "Requer administrador para liberar a standby list."@),
            elevated ==> (r matches Ok(v) && v@ == seq![ReversibleAction::MemoryStandbyFlush]),
    {
        if !elevated {
            return Err(owned("Requer administrador para liberar a standby list."));
        }
        Ok(one_action(ReversibleAction::MemoryStandbyFlush))
    }
}

// ───────────────────────── HKCU / HKLM DWORDs ─────────────────────────

/// DWORD under HKCU toward a target (gamer debloat; no elevation).
#[derive(Debug, Clone, Copy, PartialEq, Eq)]
pub struct HkcuDwordOpt {
    pub id: &'static str,
    pub name: &'static str,
    pub description: &'static str,
    pub impact: &'static str,
    pub subkey: &'static str,
    pub value_name: &'static str,
    pub target: u32,
    pub already_msg: &'static str,
}

impl HkcuDwordOpt {
    pub open spec fn spec_meta(self) -> InfoView {
        make_info(self.id@, self.name@, self.description@, "game"@, "Safe"@, self.impact@, false, false)
    }

    pub fn meta(&self) -> (r: OptimizationInfo)
        ensures
            info_view(r) == self.spec_meta(),
    {
        info(self.id, self.name, self.description, "game", "Safe", self.impact, false, false)
    }

    pub fn validation(&self) -> (v: Validation)
        ensures
            v == Validation::Manual,
    {
        Validation::Manual
    }

    pub open spec fn spec_preview(self) -> PreviewView {
        PreviewView {
            summary: dword_summary("HKCU"@, self.subkey@, self.value_name@, self.target),
            changes: seq![self.impact@],
        }
    }

    pub fn preview(&self) -> (p: Preview)
        ensures
            preview_view(p) == self.spec_preview(),
    {
        preview_one(dword_summary_string("HKCU", self.subkey, self.value_name, self.target), self.impact)
    }

    /// Plans the target value from the value read now.
    pub fn plan_from(&self, old: &Result<Option<u32>, String>) -> (r: Result<Vec<ReversibleAction>, String>)
        ensures
            dword_plan_spec(r, false, self.subkey@, self.value_name@, self.target, self.already_msg@, *old),
    {
        dword_plan(false, self.subkey, self.value_name, self.target, self.already_msg, old)
    }
}

/// Message of an HKLM change without elevation.
pub open spec fn hklm_admin_msg() -> Seq<char> {
    "Requer administrador para alterar configurações do sistema (HKLM)."@
}

/// DWORD under HKLM toward a target (network pack; needs elevation).
#[derive(Debug, Clone, Copy, PartialEq, Eq)]
pub struct HklmDwordOpt {
    pub id: &'static str,
    pub name: &'static str,
    pub description: &'static str,
    pub impact: &'static str,
    pub subkey: &'static str,
    pub value_name: &'static str,
    pub target: u32,
    pub already_msg: &'static str,
}

impl HklmDwordOpt {
    pub open spec fn spec_meta(self) -> InfoView {
        make_info(self.id@, self.name@, self.description@, "network"@, "Moderate"@, self.impact@, true, false)
    }

    pub fn meta(&self) -> (r: OptimizationInfo)
        ensures
            info_view(r) == self.spec_meta(),
    {
        info(self.id, self.name, self.description, "network", "Moderate", self.impact, true, false)
    }

    pub fn validation(&self) -> (v: Validation)
        ensures
            v == Validation::Manual,
    {
        Validation::Manual
    }

    pub open spec fn spec_preview(self) -> PreviewView {
        PreviewView {
            summary: dword_summary("HKLM"@, self.subkey@, self.value_name@, self.target),
            changes: seq![self.impact@],
        }
    }

    pub fn preview(&self) -> (p: Preview)
        ensures
            preview_view(p) == self.spec_preview(),
    {
        preview_one(dword_summary_string("HKLM", self.subkey, self.value_name, self.target), self.impact)
    }

    /// Plans the target value; needs elevation.
    pub fn plan_from(&self, elevated: bool, old: &Result<Option<u32>, String>) -> (r: Result<Vec<ReversibleAction>, String>)
        ensures
            !elevated ==> err_is(r, hklm_admin_msg()),
            elevated ==> dword_plan_spec(r, true, self.subkey@, self.value_name@, self.target, self.already_msg@, *old),
    {
        if !elevated {
            return Err(owned("Requer administrador para alterar configurações do sistema (HKLM)."));
        }
        dword_plan(true, self.subkey, self.value_name, self.target, self.already_msg, old)
    }
}

/// DWORD under HKLM with its own category and reboot flag.
#[derive(Debug, Clone, Copy, PartialEq, Eq)]
pub struct HklmDwordOptFlex {
    pub id: &'static str,
    pub name: &'static str,
    pub description: &'static str,
    pub impact: &'static str,
    pub category: &'static str,
    pub subkey: &'static str,
    pub value_name: &'static str,
    pub target: u32,
    pub already_msg: &'static str,
    pub requires_reboot: bool,
}

impl HklmDwordOptFlex {
    pub open spec fn spec_meta(self) -> InfoView {
        make_info(self.id@, self.name@, self.description@, self.category@, "Moderate"@, self.impact@, true, self.requires_reboot)
    }

    pub fn meta(&self) -> (r: OptimizationInfo)
        ensures
            info_view(r) == self.spec_meta(),
    {
        info(self.id, self.name, self.description, self.category, "Moderate", self.impact, true, self.requires_reboot)
    }

    pub fn validation(&self) -> (v: Validation)
        ensures
            v == Validation::Manual,
    {
        Validation::Manual
    }

    pub open spec fn spec_preview(self) -> PreviewView {
        PreviewView {
            summary: dword_summary("HKLM"@, self.subkey@, self.value_name@, self.target),
            changes: seq![self.impact@],
        }
    }

    pub fn preview(&self) -> (p: Preview)
        ensures
            preview_view(p) == self.spec_preview(),
    {
        preview_one(dword_summary_string("HKLM", self.subkey, self.value_name, self.target), self.impact)
    }

    /// Plans the target value; needs elevation.
    pub fn plan_from(&self, elevated: bool, old: &Result<Option<u32>, String>) -> (r: Result<Vec<ReversibleAction>, String>)
        ensures
            !elevated ==> err_is(r, hklm_admin_msg()),
            elevated ==> dword_plan_spec(r, true, self.subkey@, self.value_name@, self.target, self.already_msg@, *old),
    {
        if !elevated {
            return Err(owned("Requer administrador para alterar configurações do sistema (HKLM)."));
        }
        dword_plan(true, self.subkey, self.value_name, self.target, self.already_msg, old)
    }
}

// ───────────────────────── Startup entries ─────────────────────────

/// HKCU key of the startup entries.
pub const RUN_KEY: &'static str = "Software\\Microsoft\\Windows\\CurrentVersion\\Run";

/// Removes one startup entry (HKCU Run); reverting restores the original command.
#[derive(Debug, Clone, Copy, PartialEq, Eq)]
pub struct HkcuRunDisable {
    pub id: &'static str,
    pub name: &'static str,
    pub description: &'static str,
    pub impact: &'static str,
    pub run_value_name: &'static str,
    pub not_found_msg: &'static str,
}

/// An HKCU action removing the startup entry `name` whose command was `cmd`.
pub open spec fn run_remove_action(name: Seq<char>, cmd: Seq<char>) -> spec_fn(ReversibleAction) -> bool {
    |a: ReversibleAction| a matches ReversibleAction::RegistryHkcu { subkey, name: n, old, new } && subkey@ == RUN_KEY@
        && n@ == name && opt_view(old) == Some(cmd) && new is None
}

impl HkcuRunDisable {
    pub open spec fn spec_meta(self) -> InfoView {
        make_info(self.id@, self.name@, self.description@, "services"@, "Safe"@, self.impact@, false, false)
    }

    pub fn meta(&self) -> (r: OptimizationInfo)
        ensures
            info_view(r) == self.spec_meta(),
    {
        info(self.id, self.name, self.description, "services", "Safe", self.impact, false, false)
    }

    pub fn validation(&self) -> (v: Validation)
        ensures
            v == Validation::Manual,
    {
        Validation::Manual
    }

    pub open spec fn spec_preview(self) -> PreviewView {
        PreviewView {
            summary: "HKCU\\...\\Run\\"@ + self.run_value_name@ + " → remover (app não é desinstalado)"@,
            changes: seq![self.impact@],
        }
    }

    pub fn preview(&self) -> (p: Preview)
        ensures
            preview_view(p) == self.spec_preview(),
    {
        let mut s = owned("HKCU\\...\\Run\\");
        s.append(self.run_value_name);
        s.append(" → remover (app não é desinstalado)");
        preview_one(s, self.impact)
    }

    /// Plans removing the entry, from the command read now; an absent entry
    /// is an error.
    pub fn plan_from(&self, old: &Result<Option<String>, String>) -> (r: Result<Vec<ReversibleAction>, String>)
        ensures
            match old {
                Err(e) => r matches Err(m) && m@ == e@,
                Ok(None) => err_is(r, self.not_found_msg@),
                Ok(Some(cmd)) => single_action(r, run_remove_action(self.run_value_name@, cmd@)),
            },
    {
        match old {
            Err(e) => copy_error(e),
            Ok(None) => Err(owned(self.not_found_msg)),
            Ok(Some(cmd)) => Ok(
                one_action(
                    ReversibleAction::RegistryHkcu {
                        subkey: owned(RUN_KEY),
                        name: owned(self.run_value_name),
                        old: Some(owned(cmd.as_str())),
                        new: None,
                    },
                ),
            ),
        }
    }
}

// ───────────────────────── Mouse acceleration ─────────────────────────

/// Turns mouse acceleration off (three HKCU values).
#[derive(Debug, Clone, Copy, PartialEq, Eq, Structural)]
pub struct MouseAccelOff;

/// HKCU key of the mouse settings.
pub const MOUSE_KEY: &'static str = "Control Panel\\Mouse";

/// An HKCU string action setting `name` to "0" from `old`.
pub open spec fn mouse_zero_action(a: ReversibleAction, name: Seq<char>, old: Option<String>) -> bool {
    a matches ReversibleAction::RegistryHkcu { subkey, name: n, old: o, new } && subkey@ == MOUSE_KEY@
        && n@ == name && opt_view(o) == opt_view(old) && opt_view(new) == Some("0"@)
}

/// Whether a string value reads "0".
pub open spec fn is_zero(v: Option<String>) -> bool {
    opt_view(v) == Some("0"@)
}

fn zero_action(name: &str, old: &Option<String>) -> (a: ReversibleAction)
    ensures
        mouse_zero_action(a, name@, *old),
{
    ReversibleAction::RegistryHkcu {
        subkey: owned(MOUSE_KEY),
        name: owned(name),
        old: match old {
            Some(s) => Some(owned(s.as_str())),
            None => None,
        },
        new: Some(owned("0")),
    }
}

fn reads_zero(v: &Option<String>) -> (b: bool)
    ensures
        b == is_zero(*v),
{
    match v {
        Some(s) => str_eq(s.as_str(), "0"),
        None => false,
    }
}

/// The three actions setting speed and thresholds to "0".
pub open spec fn mouse_plan_ok(r: Result<Vec<ReversibleAction>, String>, s: Option<String>, a: Option<String>, b: Option<String>) -> bool {
    r matches Ok(v) && v@.len() == 3 && mouse_zero_action(v@[0], "MouseSpeed"@, s) && mouse_zero_action(
        v@[1],
        "MouseThreshold1"@,
        a,
    ) && mouse_zero_action(v@[2], "MouseThreshold2"@, b)
}

impl MouseAccelOff {
    pub open spec fn spec_meta(self) -> InfoView {
        make_info(
            "game.mouse_accel_off"@,
            "Desativar Aceleração do Mouse"@,
            "Remove a aceleração do ponteiro (Enhance Pointer Precision) para movimentos 1:1 precisos — essencial para jogos de mira."@,
            "game"@,
            "Safe"@,
            "Movimentos do mouse tornam-se proporcionais à velocidade física. Recomendado para FPS e jogos de precisão."@,
            false,
            false,
        )
    }

    pub fn meta(&self) -> (r: OptimizationInfo)
        ensures
            info_view(r) == self.spec_meta(),
    {
        info(
            "game.mouse_accel_off",
            "Desativar Aceleração do Mouse",
            "Remove a aceleração do ponteiro (Enhance Pointer Precision) para movimentos 1:1 precisos — essencial para jogos de mira.",
            "game",
            "Safe",
            "Movimentos do mouse tornam-se proporcionais à velocidade física. Recomendado para FPS e jogos de precisão.",
            false,
            false,
        )
    }

    pub fn validation(&self) -> (v: Validation)
        ensures
            v == Validation::Manual,
    {
        Validation::Manual
    }

    pub open spec fn spec_preview(self) -> PreviewView {
        PreviewView {
            summary: "HKCU\\Control Panel\\Mouse: MouseSpeed=0, Threshold1=0, Threshold2=0"@,
            changes: seq!["Aceleração do mouse desativada (movimentos 1:1)"@],
        }
    }

    pub fn preview(&self) -> (p: Preview)
        ensures
            preview_view(p) == self.spec_preview(),
    {
        preview_one(
            owned("HKCU\\Control Panel\\Mouse: MouseSpeed=0, Threshold1=0, Threshold2=0"),
            "Aceleração do mouse desativada (movimentos 1:1)",
        )
    }

    /// Plans the three values, from the values read now (speed, first and
    /// second threshold). The first read error wins; all three already "0" is
    /// an error.
    pub fn plan_from(
        &self,
        speed: &Result<Option<String>, String>,
        t1: &Result<Option<String>, String>,
        t2: &Result<Option<String>, String>,
    ) -> (r: Result<Vec<ReversibleAction>, String>)
        ensures
            match (*speed, *t1, *t2) {
                (Err(e), _, _) => r matches Err(m) && m@ == e@,
                (Ok(_), Err(e), _) => r matches Err(m) && m@ == e@,
                (Ok(_), Ok(_), Err(e)) => r matches Err(m) && m@ == e@,
                (Ok(s), Ok(a), Ok(b)) => if is_zero(s) && is_zero(a) && is_zero(b) {
                    err_is(r, "Aceleração do mouse já desativada."@)
                } else {
                    mouse_plan_ok(r, s, a, b)
                },
            },
    {
        let s = match speed {
            Err(e) => {
                return copy_error(e);
            },
            Ok(v) => v,
        };
        let a = match t1 {
            Err(e) => {
                return copy_error(e);
            },
            Ok(v) => v,
        };
        let b = match t2 {
            Err(e) => {
                return copy_error(e);
            },
            Ok(v) => v,
        };
        if reads_zero(s) && reads_zero(a) && reads_zero(b) {
            return Err(owned("Aceleração do mouse já desativada."));
        }
        let mut v: Vec<ReversibleAction> = Vec::new();
        v.push(zero_action("MouseSpeed", s));
        v.push(zero_action("MouseThreshold1", a));
        v.push(zero_action("MouseThreshold2", b));
        Ok(v)
    }
}

// ───────────────────────── GPU vendor options ─────────────────────────

/// DWORD under HKCU applied only when a GPU of the required vendor is present.
#[derive(Debug, Clone, Copy, PartialEq, Eq)]
pub struct HkcuVendorDwordOpt {
    pub id: &'static str,
    pub name: &'static str,
    pub description: &'static str,
    pub impact: &'static str,
    pub category: &'static str,
    pub required_vendor: &'static str,
    pub subkey: &'static str,
    pub value_name: &'static str,
    pub target: u32,
    pub already_msg: &'static str,
}

impl HkcuVendorDwordOpt {
    pub open spec fn spec_meta(self) -> InfoView {
        make_info(self.id@, self.name@, self.description@, self.category@, "Safe"@, self.impact@, false, false)
    }

    pub fn meta(&self) -> (r: OptimizationInfo)
        ensures
            info_view(r) == self.spec_meta(),
    {
        info(self.id, self.name, self.description, self.category, "Safe", self.impact, false, false)
    }

    pub fn validation(&self) -> (v: Validation)
        ensures
            v == Validation::Manual,
    {
        Validation::Manual
    }

    pub open spec fn spec_preview(self) -> PreviewView {
        PreviewView {
            summary: dword_summary("HKCU"@, self.subkey@, self.value_name@, self.target) + " (GPU: "@
                + self.required_vendor@ + ")"@,
            changes: seq![self.impact@],
        }
    }

    pub fn preview(&self) -> (p: Preview)
        ensures
            preview_view(p) == self.spec_preview(),
    {
        let mut s = dword_summary_string("HKCU", self.subkey, self.value_name, self.target);
        s.append(" (GPU: ");
        s.append(self.required_vendor);
        s.append(")");
        preview_one(s, self.impact)
    }

    /// Plans the target value when the vendor's GPU is present.
    pub fn plan_from(&self, vendors: &[String], old: &Result<Option<u32>, String>) -> (r: Result<Vec<ReversibleAction>, String>)
        ensures
            !has_vendor(vendors@, self.required_vendor@) ==> err_is(r, no_vendor_msg(self.required_vendor@)),
            has_vendor(vendors@, self.required_vendor@) ==> dword_plan_spec(r, false, self.subkey@, self.value_name@, self.target, self.already_msg@, *old),
    {
        if !vendor_present(vendors, self.required_vendor) {
            return no_vendor_error(self.required_vendor);
        }
        dword_plan(false, self.subkey, self.value_name, self.target, self.already_msg, old)
    }
}

/// Message of a driver change without elevation.
pub open spec fn driver_admin_msg() -> Seq<char> {
    "Requer administrador para modificar configurações do driver."@
}

/// DWORD under HKLM applied only when a GPU of the required vendor is present;
/// needs elevation.
#[derive(Debug, Clone, Copy, PartialEq, Eq)]
pub struct GpuVendorHklmOpt {
    pub id: &'static str,
    pub name: &'static str,
    pub description: &'static str,
    pub impact: &'static str,
    pub category: &'static str,
    pub required_vendor: &'static str,
    pub subkey: &'static str,
    pub value_name: &'static str,
    pub target: u32,
    pub already_msg: &'static str,
    pub requires_reboot: bool,
}

impl GpuVendorHklmOpt {
    pub open spec fn spec_meta(self) -> InfoView {
        make_info(self.id@, self.name@, self.description@, self.category@, "Moderate"@, self.impact@, true, self.requires_reboot)
    }

    pub fn meta(&self) -> (r: OptimizationInfo)
        ensures
            info_view(r) == self.spec_meta(),
    {
        info(self.id, self.name, self.description, self.category, "Moderate", self.impact, true, self.requires_reboot)
    }

    pub fn validation(&self) -> (v: Validation)
        ensures
            v == Validation::Manual,
    {
        Validation::Manual
    }

    pub open spec fn spec_preview(self) -> PreviewView {
        PreviewView {
            summary: dword_summary("HKLM"@, self.subkey@, self.value_name@, self.target) + " (GPU: "@
                + self.required_vendor@ + ")"@,
            changes: seq![self.impact@],
        }
    }

    pub fn preview(&self) -> (p: Preview)
        ensures
            preview_view(p) == self.spec_preview(),
    {
        let mut s = dword_summary_string("HKLM", self.subkey, self.value_name, self.target);
        s.append(" (GPU: ");
        s.append(self.required_vendor);
        s.append(")");
        preview_one(s, self.impact)
    }

    /// Plans the target value when the vendor's GPU is present and the
    /// process is elevated.
    pub fn plan_from(&self, vendors: &[String], elevated: bool, old: &Result<Option<u32>, String>) -> (r: Result<Vec<ReversibleAction>, String>)
        ensures
            !has_vendor(vendors@, self.required_vendor@) ==> err_is(r, no_vendor_msg(self.required_vendor@)),
            has_vendor(vendors@, self.required_vendor@) && !elevated ==> err_is(r, driver_admin_msg()),
            has_vendor(vendors@, self.required_vendor@) && elevated ==> dword_plan_spec(r, true, self.subkey@, self.value_name@, self.target, self.already_msg@, *old),
    {
        if !vendor_present(vendors, self.required_vendor) {
            return no_vendor_error(self.required_vendor);
        }
        if !elevated {
            return Err(owned("Requer administrador para modificar configurações do driver."));
        }
        dword_plan(true, self.subkey, self.value_name, self.target, self.already_msg, old)
    }
}

// ───────────────────────── HKLM strings ─────────────────────────

/// String under HKLM toward a target; needs elevation.
#[derive(Debug, Clone, Copy, PartialEq, Eq)]
pub struct HklmStringOpt {
    pub id: &'static str,
    pub name: &'static str,
    pub description: &'static str,
    pub impact: &'static str,
    pub category: &'static str,
    pub subkey: &'static str,
    pub value_name: &'static str,
    pub target: &'static str,
    pub already_msg: &'static str,
    pub requires_reboot: bool,
}

/// An HKLM string action from `old` to `target`.
pub open spec fn hklm_string_action(subkey: Seq<char>, name: Seq<char>, old: Option<Seq<char>>, target: Seq<char>) -> spec_fn(ReversibleAction) -> bool {
    |a: ReversibleAction| a matches ReversibleAction::RegistryHklmString { subkey: s, name: n, old: o, new }
        && s@ == subkey && n@ == name && opt_view(o) == old && opt_view(new) == Some(target)
}

impl HklmStringOpt {
    pub open spec fn spec_meta(self) -> InfoView {
        make_info(self.id@, self.name@, self.description@, self.category@, "Moderate"@, self.impact@, true, self.requires_reboot)
    }

    pub fn meta(&self) -> (r: OptimizationInfo)
        ensures
            info_view(r) == self.spec_meta(),
    {
        info(self.id, self.name, self.description, self.category, "Moderate", self.impact, true, self.requires_reboot)
    }

    pub fn validation(&self) -> (v: Validation)
        ensures
            v == Validation::Manual,
    {
        Validation::Manual
    }

    pub open spec fn spec_preview(self) -> PreviewView {
        PreviewView {
            summary: "HKLM\\"@ + self.subkey@ + "\\"@ + self.value_name@ + " = \""@ + self.target@ + "\""@,
            changes: seq![self.impact@],
        }
    }

    pub fn preview(&self) -> (p: Preview)
        ensures
            preview_view(p) == self.spec_preview(),
    {
        let mut s = owned("HKLM\\");
        s.append(self.subkey);
        s.append("\\");
        s.append(self.value_name);
        s.append(" = \"");
        s.append(self.target);
        s.append("\"");
        preview_one(s, self.impact)
    }

    /// Plans the target string; needs elevation.
    pub fn plan_from(&self, elevated: bool, old: &Result<Option<String>, String>) -> (r: Result<Vec<ReversibleAction>, String>)
        ensures
            !elevated ==> err_is(r, "Requer administrador."@),
            elevated ==> match old {
                Err(e) => r matches Err(m) && m@ == e@,
                Ok(o) => if opt_view(*o) == Some(self.target@) {
                    err_is(r, self.already_msg@)
                } else {
                    single_action(r, hklm_string_action(self.subkey@, self.value_name@, opt_view(*o), self.target@))
                },
            },
    {
        if !elevated {
            return Err(owned("Requer administrador."));
        }
        match old {
            Err(e) => copy_error(e),
            Ok(o) => {
                let same = match o {
                    Some(s) => str_eq(s.as_str(), self.target),
                    None => false,
                };
                if same {
                    return Err(owned(self.already_msg));
                }
                Ok(
                    one_action(
                        ReversibleAction::RegistryHklmString {
                            subkey: owned(self.subkey),
                            name: owned(self.value_name),
                            old: match o {
                                Some(s) => Some(owned(s.as_str())),
                                None => None,
                            },
                            new: Some(owned(self.target)),
                        },
                    ),
                )
            },
        }
    }
}

// ───────────────────────── AMD ULPS ─────────────────────────

/// HKLM class key of the display adapters.
pub const DISPLAY_CLASS: &'static str =
    "SYSTEM\\CurrentControlSet\\Control\\Class\\{4d36e968-e325-11ce-bfc1-08002be10318}";

/// Adapter subkeys scanned: `0000` to `0015`.
pub const ADAPTER_SLOTS: usize = 16;

/// What was read for one display adapter slot.
#[derive(Debug)]
pub struct AdapterReading {
    /// `DriverDesc` of the slot.
    pub driver_desc: Result<Option<String>, String>,
    /// `EnableUlps` of the slot.
    pub enable_ulps: Result<Option<u32>, String>,
}

/// A number below 10000 written with four digits.
pub open spec fn four_digits(n: nat) -> Seq<char> {
    if n < 10 {
        "000"@ + decimal(n)
    } else if n < 100 {
        "00"@ + decimal(n)
    } else if n < 1000 {
        "0"@ + decimal(n)
    } else {
        decimal(n)
    }
}

/// The key of adapter slot `i`.
pub open spec fn adapter_key(i: nat) -> Seq<char> {
    DISPLAY_CLASS@ + "\\"@ + four_digits(i)
}

fn adapter_key_string(i: usize) -> (s: String)
    requires
        i < 10000,
    ensures
        s@ == adapter_key(i as nat),
{
    let mut s = owned(DISPLAY_CLASS);
    s.append("\\");
    if i < 10 {
        s.append("000");
    } else if i < 100 {
        s.append("00");
    } else if i < 1000 {
        s.append("0");
    }
    push_decimal(&mut s, i as u64);
    s
}

/// Whether a driver description names an AMD adapter.
pub open spec fn is_amd_desc(d: Seq<char>) -> bool {
    seq_contains(d, "AMD"@) || seq_contains(d, "Radeon"@) || seq_contains(d, "Advanced Micro"@)
}

/// The `EnableUlps` value to replace in a slot: AMD adapters whose value
/// could be read and is not already 0.
pub open spec fn ulps_old(r: AdapterReading) -> Option<Option<u32>> {
    match r.driver_desc {
        Ok(Some(d)) => if is_amd_desc(d@) {
            match r.enable_ulps {
                Ok(v) => if v == Some(0u32) {
                    None
                } else {
                    Some(v)
                },
                Err(_) => None,
            }
        } else {
            None
        },
        _ => None,
    }
}

/// The slots to change among the first `n`, in order, with their old values.
pub open spec fn ulps_changes(rs: Seq<AdapterReading>, n: nat) -> Seq<(nat, Option<u32>)>
    decreases n,
{
    if n == 0 || n > rs.len() {
        Seq::empty()
    } else {
        let prev = ulps_changes(rs, (n - 1) as nat);
        match ulps_old(rs[n - 1]) {
            Some(v) => prev.push(((n - 1) as nat, v)),
            None => prev,
        }
    }
}

/// The actions match the changes, one for one.
pub open spec fn ulps_actions_ok(v: Seq<ReversibleAction>, changes: Seq<(nat, Option<u32>)>) -> bool {
    &&& v.len() == changes.len()
    &&& forall|k: int| 0 <= k < v.len() ==> (hklm_dword_action(adapter_key(changes[k].0), "EnableUlps"@, changes[k].1, Some(0u32)))(#[trigger] v[k])
}

/// Disables ULPS (Ultra Low Power State) on every AMD display adapter.
#[derive(Debug, Clone, Copy, PartialEq, Eq, Structural)]
pub struct AmdUlpsDisable;

fn desc_is_amd(d: &Result<Option<String>, String>) -> (b: bool)
    ensures
        b == (d matches Ok(Some(s)) && is_amd_desc(s@)),
{
    match d {
        Ok(Some(s)) => contains_str(s.as_str(), "AMD") || contains_str(s.as_str(), "Radeon")
            || contains_str(s.as_str(), "Advanced Micro"),
        _ => false,
    }
}

impl AmdUlpsDisable {
    pub open spec fn spec_meta(self) -> InfoView {
        make_info(
            "amd.ulps_disable"@,
            "AMD: Desativar ULPS (Ultra Low Power State)"@,
            "Desativa o Ultra Low Power State do driver AMD. ULPS reduz os clocks da GPU a quase zero em idle — ao voltar a alta carga, o transitório pode causar micro-travadas e stutters de 100–500ms."@,
            "amd"@,
            "Moderate"@,
            "Elimina stutters causados pelo driver AMD ao acordar do estado de ultra baixo consumo. Aumenta consumo de energia em idle. Especialmente eficaz em setups multi-GPU ou multi-monitor."@,
            true,
            true,
        )
    }

    pub fn meta(&self) -> (r: OptimizationInfo)
        ensures
            info_view(r) == self.spec_meta(),
    {
        info(
            "amd.ulps_disable",
            "AMD: Desativar ULPS (Ultra Low Power State)",
            "Desativa o Ultra Low Power State do driver AMD. ULPS reduz os clocks da GPU a quase zero em idle — ao voltar a alta carga, o transitório pode causar micro-travadas e stutters de 100–500ms.",
            "amd",
            "Moderate",
            "Elimina stutters causados pelo driver AMD ao acordar do estado de ultra baixo consumo. Aumenta consumo de energia em idle. Especialmente eficaz em setups multi-GPU ou multi-monitor.",
            true,
            true,
        )
    }

    pub fn validation(&self) -> (v: Validation)
        ensures
            v == Validation::Manual,
    {
        Validation::Manual
    }

    pub open spec fn spec_preview(self) -> PreviewView {
        PreviewView {
            summary: "HKLM\\...\\{AMD adapter}\\EnableUlps = 0"@,
            changes: seq!["ULPS desativado para cada adaptador AMD detectado"@],
        }
    }

    pub fn preview(&self) -> (p: Preview)
        ensures
            preview_view(p) == self.spec_preview(),
    {
        preview_one(
            owned("HKLM\\...\\{AMD adapter}\\EnableUlps = 0"),
            "ULPS desativado para cada adaptador AMD detectado",
        )
    }

    /// Plans `EnableUlps = 0` on each AMD adapter slot, from the readings of
    /// the sixteen slots. Needs an AMD GPU and elevation; slots whose value
    /// cannot be read are skipped; nothing to change is an error.
    pub fn plan_from(&self, vendors: &[String], elevated: bool, adapters: &[AdapterReading]) -> (r: Result<Vec<ReversibleAction>, String>)
        requires
            adapters@.len() == ADAPTER_SLOTS,
        ensures
            !has_vendor(vendors@, "AMD"@) ==> err_is(r, "GPU AMD não detectada neste sistema."@),
            has_vendor(vendors@, "AMD"@) && !elevated ==> err_is(r, "Requer administrador para modificar configurações do driver AMD."@),
            has_vendor(vendors@, "AMD"@) && elevated ==> if ulps_changes(adapters@, ADAPTER_SLOTS as nat).len() == 0 {
                err_is(r, "ULPS já desativado em todos os adaptadores AMD encontrados."@)
            } else {
                r matches Ok(v) && ulps_actions_ok(v@, ulps_changes(adapters@, ADAPTER_SLOTS as nat))
            },
    {
        if !vendor_present(vendors, "AMD") {
            return Err(owned("GPU AMD não detectada neste sistema."));
        }
        if !elevated {
            return Err(owned("Requer administrador para modificar configurações do driver AMD."));
        }
        let mut actions: Vec<ReversibleAction> = Vec::new();
        let mut i: usize = 0;
        while i < adapters.len()
            invariant
                adapters@.len() == ADAPTER_SLOTS,
                i <= adapters@.len(),
                ulps_actions_ok(actions@, ulps_changes(adapters@, i as nat)),
            decreases adapters@.len() - i,
        {
            let a = &adapters[i];
            let ghost prev = ulps_changes(adapters@, i as nat);
            assert(ulps_changes(adapters@, (i + 1) as nat) == match ulps_old(adapters@[i as int]) {
                Some(v) => prev.push((i as nat, v)),
                None => prev,
            });
            if desc_is_amd(&a.driver_desc) {
                match &a.enable_ulps {
                    Ok(old) => {
                        if *old != Some(0u32) {
                            let ghost before = actions@;
                            actions.push(
                                ReversibleAction::RegistryHklmDword {
                                    subkey: adapter_key_string(i),
                                    name: owned("EnableUlps"),
                                    old: *old,
                                    new: Some(0),
                                },
                            );
                        }
                    },
                    Err(_) => {},
                }
            }
            i = i + 1;
        }
        if actions.len() == 0 {
            return Err(owned("ULPS já desativado em todos os adaptadores AMD encontrados."));
        }
        Ok(actions)
    }
}

// ───────────────────────── TCP ACK frequency ─────────────────────────

/// HKLM key of the TCP/IP interfaces.
pub const TCP_INTERFACES: &'static str =
    "SYSTEM\\CurrentControlSet\\Services\\Tcpip\\Parameters\\Interfaces";

/// What was read for one TCP/IP interface.
#[derive(Debug)]
pub struct InterfaceReading {
    /// Subkey name (the interface GUID).
    pub guid: String,
    pub dhcp_ip: Result<Option<String>, String>,
    pub ip: Result<Option<String>, String>,
    pub ack_frequency: Result<Option<u32>, String>,
}

/// The address of an interface: the DHCP address if readable, else the
/// static one.
pub open spec fn iface_ip(r: InterfaceReading) -> Option<Seq<char>> {
    match r.dhcp_ip {
        Ok(Some(s)) => Some(s@),
        _ => match r.ip {
            Ok(Some(s)) => Some(s@),
            _ => None,
        },
    }
}

/// Whether the interface has an address configured.
pub open spec fn has_ip(r: InterfaceReading) -> bool {
    match iface_ip(r) {
        Some(s) => s.len() > 0 && s != "0.0.0.0"@,
        None => false,
    }
}

/// The interfaces to change among the first `n`, with their old values, or
/// the first read error of an interface with an address.
pub open spec fn ack_changes(rs: Seq<InterfaceReading>, n: nat) -> Result<Seq<(Seq<char>, Option<u32>)>, Seq<char>>
    decreases n,
{
    if n == 0 || n > rs.len() {
        Ok(Seq::empty())
    } else {
        match ack_changes(rs, (n - 1) as nat) {
            Err(e) => Err(e),
            Ok(prev) => {
                let r = rs[n - 1];
                if !has_ip(r) {
                    Ok(prev)
                } else {
                    match r.ack_frequency {
                        Err(e) => Err(e@),
                        Ok(v) => if v == Some(1u32) {
                            Ok(prev)
                        } else {
                            Ok(prev.push((r.guid@, v)))
                        },
                    }
                }
            },
        }
    }
}

/// The actions match the changes, one for one.
pub open spec fn ack_actions_ok(v: Seq<ReversibleAction>, changes: Seq<(Seq<char>, Option<u32>)>) -> bool {
    &&& v.len() == changes.len()
    &&& forall|k: int| 0 <= k < v.len() ==> (hklm_dword_action(TCP_INTERFACES@ + "\\"@ + changes[k].0, "TcpAckFrequency"@, changes[k].1, Some(1u32)))(#[trigger] v[k])
}

fn ip_text(r: &InterfaceReading) -> (o: Option<&String>)
    ensures
        match (o, iface_ip(*r)) {
            (Some(s), Some(t)) => s@ == t,
            (None, None) => true,
            _ => false,
        },
{
    match &r.dhcp_ip {
        Ok(Some(s)) => Some(s),
        _ => match &r.ip {
            Ok(Some(s)) => Some(s),
            _ => None,
        },
    }
}

fn interface_has_ip(r: &InterfaceReading) -> (b: bool)
    ensures
        b == has_ip(*r),
{
    match ip_text(r) {
        Some(s) => s.as_str().unicode_len() > 0 && !str_eq(s.as_str(), "0.0.0.0"),
        None => false,
    }
}

/// Sets `TcpAckFrequency = 1` on every TCP/IP interface with an address.
#[derive(Debug, Clone, Copy, PartialEq, Eq, Structural)]
pub struct NetworkTcpAckFrequency;

impl NetworkTcpAckFrequency {
    pub open spec fn spec_meta(self) -> InfoView {
        make_info(
            "network.tcp_ack_frequency"@,
            "TCP ACK Imediato por Interface (TcpAckFrequency)"@,
            "Define TcpAckFrequency=1 para cada interface de rede — o Windows envia o ACK de cada pacote imediatamente, sem aguardar o timer de 200ms do algoritmo de Nagle. Atua por interface, complementando o TcpNoDelay global."@,
            "network"@,
            "Moderate"@,
            "Pode reduzir latência de rede em jogos online com pacotes pequenos e frequentes. Pode aumentar o número de pacotes enviados — ideal em conexões de baixa latência (fibra/cabo). Em redes de alta latência ou congestionadas pode aumentar o overhead."@,
            true,
            false,
        )
    }

    pub fn meta(&self) -> (r: OptimizationInfo)
        ensures
            info_view(r) == self.spec_meta(),
    {
        info(
            "network.tcp_ack_frequency",
            "TCP ACK Imediato por Interface (TcpAckFrequency)",
            "Define TcpAckFrequency=1 para cada interface de rede — o Windows envia o ACK de cada pacote imediatamente, sem aguardar o timer de 200ms do algoritmo de Nagle. Atua por interface, complementando o TcpNoDelay global.",
            "network",
            "Moderate",
            "Pode reduzir latência de rede em jogos online com pacotes pequenos e frequentes. Pode aumentar o número de pacotes enviados — ideal em conexões de baixa latência (fibra/cabo). Em redes de alta latência ou congestionadas pode aumentar o overhead.",
            true,
            false,
        )
    }

    pub fn validation(&self) -> (v: Validation)
        ensures
            v == Validation::Manual,
    {
        Validation::Manual
    }

    pub open spec fn spec_preview(self) -> PreviewView {
        PreviewView {
            summary: "HKLM\\...\\Tcpip\\Parameters\\Interfaces\\{GUID}\\TcpAckFrequency = 1"@,
            changes: seq!["Aplicado a cada interface detectada"@],
        }
    }

    pub fn preview(&self) -> (p: Preview)
        ensures
            preview_view(p) == self.spec_preview(),
    {
        preview_one(
            owned("HKLM\\...\\Tcpip\\Parameters\\Interfaces\\{GUID}\\TcpAckFrequency = 1"),
            "Aplicado a cada interface detectada",
        )
    }

    /// Plans `TcpAckFrequency = 1` on each interface with an address, from
    /// the enumeration of interfaces and what was read for each. Needs
    /// elevation; interfaces already at 1 are skipped.
    pub fn plan_from(&self, elevated: bool, interfaces: &Result<Vec<InterfaceReading>, String>) -> (r: Result<Vec<ReversibleAction>, String>)
        ensures
            !elevated ==> err_is(r, "Requer administrador para modificar parâmetros TCP por interface."@),
            elevated ==> match interfaces {
                Err(e) => r matches Err(m) && m@ == e@,
                Ok(rs) => if rs@.len() == 0 {
                    err_is(r, "Nenhuma interface TCP detectada no registro."@)
                } else {
                    match ack_changes(rs@, rs@.len()) {
                        Err(e) => err_is(r, e),
                        Ok(cs) => if cs.len() == 0 {
                            err_is(r, "TcpAckFrequency já configurado em todas as interfaces ativas."@)
                        } else {
                            r matches Ok(v) && ack_actions_ok(v@, cs)
                        },
                    }
                },
            },
    {
        if !elevated {
            return Err(owned("Requer administrador para modificar parâmetros TCP por interface."));
        }
        let rs = match interfaces {
            Err(e) => {
                return copy_error(e);
            },
            Ok(rs) => rs,
        };
        if rs.len() == 0 {
            return Err(owned("Nenhuma interface TCP detectada no registro."));
        }
        let mut actions: Vec<ReversibleAction> = Vec::new();
        let mut i: usize = 0;
        while i < rs.len()
            invariant
                elevated,
                *interfaces == Ok::<Vec<InterfaceReading>, String>(*rs),
                rs@.len() > 0,
                i <= rs@.len(),
                ack_changes(rs@, i as nat) matches Ok(cs) && ack_actions_ok(actions@, cs),
            decreases rs@.len() - i,
        {
            let r = &rs[i];
            if interface_has_ip(r) {
                match &r.ack_frequency {
                    Err(e) => {
                        assert(ack_changes(rs@, (i + 1) as nat) == Err::<Seq<(Seq<char>, Option<u32>)>, Seq<char>>(e@));
                        proof {
                            lemma_ack_error_sticks(rs@, (i + 1) as nat, rs@.len(), e@);
                        }
                        return copy_error(e);
                    },
                    Ok(old) => {
                        if *old != Some(1u32) {
                            let mut sub = owned(TCP_INTERFACES);
                            sub.append("\\");
                            sub.append(r.guid.as_str());
                            actions.push(
                                ReversibleAction::RegistryHklmDword {
                                    subkey: sub,
                                    name: owned("TcpAckFrequency"),
                                    old: *old,
                                    new: Some(1),
                                },
                            );
                        }
                    },
                }
            }
            i = i + 1;
        }
        if actions.len() == 0 {
            return Err(owned("TcpAckFrequency já configurado em todas as interfaces ativas."));
        }
        Ok(actions)
    }
}

/// Once an interface read fails, the error is the outcome of every longer prefix.
proof fn lemma_ack_error_sticks(rs: Seq<InterfaceReading>, n: nat, m: nat, e: Seq<char>)
    requires
        n <= m <= rs.len(),
        ack_changes(rs, n) == Err::<Seq<(Seq<char>, Option<u32>)>, Seq<char>>(e),
    ensures
        ack_changes(rs, m) == Err::<Seq<(Seq<char>, Option<u32>)>, Seq<char>>(e),
    decreases m - n,
{
    if n < m {
        lemma_ack_error_sticks(rs, n, (m - 1) as nat, e);
    }
}

// ───────────────────────── The catalog ─────────────────────────

/// A cleanup as plain values.
pub struct FileCleanupView {
    pub id: &'static str,
    pub name: &'static str,
    pub description: &'static str,
    pub dirs: Seq<Seq<char>>,
    pub min_age_days: u64,
    pub exts: Seq<Seq<char>>,
    pub requires_elevation: bool,
    pub depth: usize,
}

impl FileCleanup {
    pub open spec fn view(self) -> FileCleanupView {
        FileCleanupView {
            id: self.id,
            name: self.name,
            description: self.description,
            dirs: strings_view(self.dirs@),
            min_age_days: self.min_age_days,
            exts: self.exts@.map_values(|e: &str| e@),
            requires_elevation: self.requires_elevation,
            depth: self.depth,
        }
    }
}

/// One optimization of the catalog.
#[derive(Debug, Clone)]
pub enum CatalogEntry {
    PowerPlanHigh(PowerPlanHigh),
    FileCleanup(FileCleanup),
    RegistryToggle(RegistryToggle),
    VisualEffectsGaming(VisualEffectsGaming),
    MemoryStandbyClean(MemoryStandbyClean),
    HkcuDwordOpt(HkcuDwordOpt),
    HklmDwordOpt(HklmDwordOpt),
    HklmDwordOptFlex(HklmDwordOptFlex),
    HkcuRunDisable(HkcuRunDisable),
    MouseAccelOff(MouseAccelOff),
    HkcuVendorDwordOpt(HkcuVendorDwordOpt),
    GpuVendorHklmOpt(GpuVendorHklmOpt),
    AmdUlpsDisable(AmdUlpsDisable),
    HklmStringOpt(HklmStringOpt),
    NetworkTcpAckFrequency(NetworkTcpAckFrequency),
}

/// A catalog entry as plain values.
pub enum EntryView {
    PowerPlanHigh(PowerPlanHigh),
    FileCleanup(FileCleanupView),
    RegistryToggle(RegistryToggle),
    VisualEffectsGaming(VisualEffectsGaming),
    MemoryStandbyClean(MemoryStandbyClean),
    HkcuDwordOpt(HkcuDwordOpt),
    HklmDwordOpt(HklmDwordOpt),
    HklmDwordOptFlex(HklmDwordOptFlex),
    HkcuRunDisable(HkcuRunDisable),
    MouseAccelOff(MouseAccelOff),
    HkcuVendorDwordOpt(HkcuVendorDwordOpt),
    GpuVendorHklmOpt(GpuVendorHklmOpt),
    AmdUlpsDisable(AmdUlpsDisable),
    HklmStringOpt(HklmStringOpt),
    NetworkTcpAckFrequency(NetworkTcpAckFrequency),
}

impl CatalogEntry {
    pub open spec fn view(self) -> EntryView {
        match self {
            CatalogEntry::PowerPlanHigh(o) => EntryView::PowerPlanHigh(o),
            CatalogEntry::FileCleanup(o) => EntryView::FileCleanup(o.view()),
            CatalogEntry::RegistryToggle(o) => EntryView::RegistryToggle(o),
            CatalogEntry::VisualEffectsGaming(o) => EntryView::VisualEffectsGaming(o),
            CatalogEntry::MemoryStandbyClean(o) => EntryView::MemoryStandbyClean(o),
            CatalogEntry::HkcuDwordOpt(o) => EntryView::HkcuDwordOpt(o),
            CatalogEntry::HklmDwordOpt(o) => EntryView::HklmDwordOpt(o),
            CatalogEntry::HklmDwordOptFlex(o) => EntryView::HklmDwordOptFlex(o),
            CatalogEntry::HkcuRunDisable(o) => EntryView::HkcuRunDisable(o),
            CatalogEntry::MouseAccelOff(o) => EntryView::MouseAccelOff(o),
            CatalogEntry::HkcuVendorDwordOpt(o) => EntryView::HkcuVendorDwordOpt(o),
            CatalogEntry::GpuVendorHklmOpt(o) => EntryView::GpuVendorHklmOpt(o),
            CatalogEntry::AmdUlpsDisable(o) => EntryView::AmdUlpsDisable(o),
            CatalogEntry::HklmStringOpt(o) => EntryView::HklmStringOpt(o),
            CatalogEntry::NetworkTcpAckFrequency(o) => EntryView::NetworkTcpAckFrequency(o),
        }
    }

    /// The metadata of the entry.
    pub open spec fn spec_meta(self) -> InfoView {
        match self {
            CatalogEntry::PowerPlanHigh(o) => o.spec_meta(),
            CatalogEntry::FileCleanup(o) => o.spec_meta(),
            CatalogEntry::RegistryToggle(o) => o.spec_meta(),
            CatalogEntry::VisualEffectsGaming(o) => o.spec_meta(),
            CatalogEntry::MemoryStandbyClean(o) => o.spec_meta(),
            CatalogEntry::HkcuDwordOpt(o) => o.spec_meta(),
            CatalogEntry::HklmDwordOpt(o) => o.spec_meta(),
            CatalogEntry::HklmDwordOptFlex(o) => o.spec_meta(),
            CatalogEntry::HkcuRunDisable(o) => o.spec_meta(),
            CatalogEntry::MouseAccelOff(o) => o.spec_meta(),
            CatalogEntry::HkcuVendorDwordOpt(o) => o.spec_meta(),
            CatalogEntry::GpuVendorHklmOpt(o) => o.spec_meta(),
            CatalogEntry::AmdUlpsDisable(o) => o.spec_meta(),
            CatalogEntry::HklmStringOpt(o) => o.spec_meta(),
            CatalogEntry::NetworkTcpAckFrequency(o) => o.spec_meta(),
        }
    }

    /// The preview of the entry, with the memory available now.
    pub open spec fn spec_preview(self, available_memory_bytes: u64) -> PreviewView {
        match self {
            CatalogEntry::PowerPlanHigh(o) => o.spec_preview(),
            CatalogEntry::FileCleanup(o) => o.spec_preview(),
            CatalogEntry::RegistryToggle(o) => o.spec_preview(),
            CatalogEntry::VisualEffectsGaming(o) => o.spec_preview(),
            CatalogEntry::MemoryStandbyClean(o) => o.spec_preview(available_memory_bytes),
            CatalogEntry::HkcuDwordOpt(o) => o.spec_preview(),
            CatalogEntry::HklmDwordOpt(o) => o.spec_preview(),
            CatalogEntry::HklmDwordOptFlex(o) => o.spec_preview(),
            CatalogEntry::HkcuRunDisable(o) => o.spec_preview(),
            CatalogEntry::MouseAccelOff(o) => o.spec_preview(),
            CatalogEntry::HkcuVendorDwordOpt(o) => o.spec_preview(),
            CatalogEntry::GpuVendorHklmOpt(o) => o.spec_preview(),
            CatalogEntry::AmdUlpsDisable(o) => o.spec_preview(),
            CatalogEntry::HklmStringOpt(o) => o.spec_preview(),
            CatalogEntry::NetworkTcpAckFrequency(o) => o.spec_preview(),
        }
    }

    /// How the effect of the entry is proved.
    pub open spec fn spec_validation(self) -> Validation {
        match self {
            CatalogEntry::FileCleanup(_) => Validation::SpaceFreed,
            CatalogEntry::MemoryStandbyClean(_) => Validation::SpaceFreed,
            _ => Validation::Manual,
        }
    }
}

/// What every optimization offers: its metadata, how its effect is proved,
/// and a preview of its changes.
pub trait Optimization {
    fn meta(&self) -> OptimizationInfo;

    fn validation(&self) -> Validation;

    /// The preview; `available_memory_bytes` is shown by the standby purge.
    fn preview(&self, available_memory_bytes: u64) -> Preview;
}

impl Optimization for CatalogEntry {
    fn meta(&self) -> (r: OptimizationInfo)
        ensures
            info_view(r) == self.spec_meta(),
    {
        match self {
            CatalogEntry::PowerPlanHigh(o) => o.meta(),
            CatalogEntry::FileCleanup(o) => o.meta(),
            CatalogEntry::RegistryToggle(o) => o.meta(),
            CatalogEntry::VisualEffectsGaming(o) => o.meta(),
            CatalogEntry::MemoryStandbyClean(o) => o.meta(),
            CatalogEntry::HkcuDwordOpt(o) => o.meta(),
            CatalogEntry::HklmDwordOpt(o) => o.meta(),
            CatalogEntry::HklmDwordOptFlex(o) => o.meta(),
            CatalogEntry::HkcuRunDisable(o) => o.meta(),
            CatalogEntry::MouseAccelOff(o) => o.meta(),
            CatalogEntry::HkcuVendorDwordOpt(o) => o.meta(),
            CatalogEntry::GpuVendorHklmOpt(o) => o.meta(),
            CatalogEntry::AmdUlpsDisable(o) => o.meta(),
            CatalogEntry::HklmStringOpt(o) => o.meta(),
            CatalogEntry::NetworkTcpAckFrequency(o) => o.meta(),
        }
    }

    fn validation(&self) -> (v: Validation)
        ensures
            v == self.spec_validation(),
    {
        match self {
            CatalogEntry::PowerPlanHigh(o) => o.validation(),
            CatalogEntry::FileCleanup(o) => o.validation(),
            CatalogEntry::RegistryToggle(o) => o.validation(),
            CatalogEntry::VisualEffectsGaming(o) => o.validation(),
            CatalogEntry::MemoryStandbyClean(o) => o.validation(),
            CatalogEntry::HkcuDwordOpt(o) => o.validation(),
            CatalogEntry::HklmDwordOpt(o) => o.validation(),
            CatalogEntry::HklmDwordOptFlex(o) => o.validation(),
            CatalogEntry::HkcuRunDisable(o) => o.validation(),
            CatalogEntry::MouseAccelOff(o) => o.validation(),
            CatalogEntry::HkcuVendorDwordOpt(o) => o.validation(),
            CatalogEntry::GpuVendorHklmOpt(o) => o.validation(),
            CatalogEntry::AmdUlpsDisable(o) => o.validation(),
            CatalogEntry::HklmStringOpt(o) => o.validation(),
            CatalogEntry::NetworkTcpAckFrequency(o) => o.validation(),
        }
    }

    fn preview(&self, available_memory_bytes: u64) -> (p: Preview)
        ensures
            preview_view(p) == self.spec_preview(available_memory_bytes),
    {
        match self {
            CatalogEntry::PowerPlanHigh(o) => o.preview(),
            CatalogEntry::FileCleanup(o) => o.preview(),
            CatalogEntry::RegistryToggle(o) => o.preview(),
            CatalogEntry::VisualEffectsGaming(o) => o.preview(),
            CatalogEntry::MemoryStandbyClean(o) => o.preview(available_memory_bytes),
            CatalogEntry::HkcuDwordOpt(o) => o.preview(),
            CatalogEntry::HklmDwordOpt(o) => o.preview(),
            CatalogEntry::HklmDwordOptFlex(o) => o.preview(),
            CatalogEntry::HkcuRunDisable(o) => o.preview(),
            CatalogEntry::MouseAccelOff(o) => o.preview(),
            CatalogEntry::HkcuVendorDwordOpt(o) => o.preview(),
            CatalogEntry::GpuVendorHklmOpt(o) => o.preview(),
            CatalogEntry::AmdUlpsDisable(o) => o.preview(),
            CatalogEntry::HklmStringOpt(o) => o.preview(),
            CatalogEntry::NetworkTcpAckFrequency(o) => o.preview(),
        }
    }
}

/// The catalog, in order, for the given temporary directories.
pub open spec fn catalog_table(temp_dirs: Seq<Seq<char>>) -> Seq<EntryView> {
    seq![
        EntryView::PowerPlanHigh(PowerPlanHigh),
        EntryView::FileCleanup(FileCleanupView {
            id: "cleanup.temp_files",
            name: "Limpeza de Temporários",
            description: "Move arquivos temporários antigos para a quarentena (recuperáveis).",
            dirs: temp_dirs,
            min_age_days: 1,
            exts: Seq::empty(),
            requires_elevation: false,
            depth: 2,
        }),
        EntryView::FileCleanup(FileCleanupView {
            id: "cleanup.old_logs",
            name: "Limpeza de Logs Antigos",
            description: "Move logs antigos (.log/.etl/.dmp) para a quarentena.",
            dirs: temp_dirs,
            min_age_days: 7,
            exts: seq!["log"@, "etl"@, "dmp"@],
            requires_elevation: false,
            depth: 2,
        }),
        EntryView::FileCleanup(FileCleanupView {
            id: "cleanup.wu_cache",
            name: "Cache do Windows Update",
            description: "Move arquivos baixados do Windows Update para a quarentena (best-effort; pode exigir admin).",
            dirs: seq!["C:\\Windows\\SoftwareDistribution\\Download"@],
            min_age_days: 0,
            exts: Seq::empty(),
            requires_elevation: true,
            depth: 1,
        }),
        EntryView::RegistryToggle(RegistryToggle {
            id: "game.game_mode",
            name: "Game Mode",
            description: "Ativa o Modo Jogo do Windows.",
            impact: "Prioriza recursos do sistema para o jogo (comprovar com captura de FPS).",
            subkey: "Software\\Microsoft\\GameBar",
            value: "AutoGameModeEnabled",
            on: 1,
        }),
        EntryView::RegistryToggle(RegistryToggle {
            id: "game.xbox_game_bar",
            name: "Desativar Game DVR (Xbox)",
            description: "Desativa a gravação em segundo plano do Game DVR.",
            impact: "Reduz overhead de captura em segundo plano (comprovar com FPS).",
            subkey: "System\\GameConfigStore",
            value: "GameDVR_Enabled",
            on: 0,
        }),
        EntryView::VisualEffectsGaming(VisualEffectsGaming),
        EntryView::MemoryStandbyClean(MemoryStandbyClean),
        EntryView::HkcuDwordOpt(HkcuDwordOpt {
            id: "game.widgets_disable",
            name: "Desativar Widgets da Barra de Tarefas",
            description: "Remove o botão de Widgets (notícias/tempo) da barra de tarefas.",
            impact: "Elimina processo de widgets em segundo plano. Comprovar com monitor de CPU.",
            subkey: "Software\\Microsoft\\Windows\\CurrentVersion\\Explorer\\Advanced",
            value_name: "TaskbarDa",
            target: 0,
            already_msg: "Widgets já desativados.",
        }),
        EntryView::HkcuDwordOpt(HkcuDwordOpt {
            id: "game.copilot_disable",
            name: "Desativar Botão do Copilot",
            description: "Remove o botão do Copilot da barra de tarefas.",
            impact: "Remove entrada visual e processo de fundo do Copilot.",
            subkey: "Software\\Microsoft\\Windows\\CurrentVersion\\Explorer\\Advanced",
            value_name: "ShowCopilotButton",
            target: 0,
            already_msg: "Botão do Copilot já desativado.",
        }),
        EntryView::HkcuDwordOpt(HkcuDwordOpt {
            id: "game.game_dvr_fse",
            name: "Game DVR: Modo FSE",
            description: "Configura o Game DVR para não interferir em modo full-screen exclusivo.",
            impact: "Reduz overhead de captura em full-screen exclusivo. Comprovar com FPS.",
            subkey: "System\\GameConfigStore",
            value_name: "GameDVR_FSEBehaviorMode",
            target: 2,
            already_msg: "Game DVR FSE já configurado.",
        }),
        EntryView::HklmDwordOpt(HklmDwordOpt {
            id: "network.throttling_disable",
            name: "Desativar Network Throttling",
            description: "Define NetworkThrottlingIndex=0xFFFFFFFF para remover limite de largura de banda do subsistema multimídia.",
            impact: "Pode reduzir latência de rede em jogos online. Comprovar com ping estável — não garante melhora em todas as redes.",
            subkey: "SOFTWARE\\Microsoft\\Windows NT\\CurrentVersion\\Multimedia\\SystemProfile",
            value_name: "NetworkThrottlingIndex",
            target: 0xFFFFFFFF,
            already_msg: "Network throttling já desativado.",
        }),
        EntryView::HklmDwordOpt(HklmDwordOpt {
            id: "network.system_responsiveness",
            name: "Responsividade do Sistema (Gaming)",
            description: "Define SystemResponsiveness=0 para priorizar tarefas de multimídia/jogos sobre serviços de background.",
            impact: "Reserva mais CPU para o jogo em detrimento de tarefas de background. Comprovar com FPS e latência.",
            subkey: "SOFTWARE\\Microsoft\\Windows NT\\CurrentVersion\\Multimedia\\SystemProfile",
            value_name: "SystemResponsiveness",
            target: 0,
            already_msg: "SystemResponsiveness já configurado para jogos.",
        }),
        EntryView::HkcuDwordOpt(HkcuDwordOpt {
            id: "game.background_recording_off",
            name: "Desativar Gravação em Segundo Plano",
            description: "Desativa o AppCapture do Windows — impede captura automática de gameplay em segundo plano pelo Game DVR.",
            impact: "Libera CPU/GPU de captura de vídeo. Mais recursos para o jogo sem gravar nada.",
            subkey: "Software\\Microsoft\\Windows\\CurrentVersion\\GameDVR",
            value_name: "AppCaptureEnabled",
            target: 0,
            already_msg: "Gravação em segundo plano já desativada.",
        }),
        EntryView::HkcuDwordOpt(HkcuDwordOpt {
            id: "game.game_bar_overlay_off",
            name: "Desativar Overlay do Game Bar",
            description: "Desativa a interface overlay do Xbox Game Bar durante o jogo. O app permanece instalado e pode ser reativado.",
            impact: "Elimina sobreposição da interface durante gameplay e reduz uso de memória pelo Game Bar.",
            subkey: "Software\\Microsoft\\GameBar",
            value_name: "UseNexusForGameBarEnabled",
            target: 0,
            already_msg: "Overlay do Game Bar já desativado.",
        }),
        EntryView::MouseAccelOff(MouseAccelOff),
        EntryView::HklmDwordOptFlex(HklmDwordOptFlex {
            id: "game.hags_enable",
            name: "Hardware Accelerated GPU Scheduling (HAGS)",
            description: "Permite que a GPU gerencie sua própria memória de vídeo diretamente, reduzindo a latência de frames no pipeline de renderização.",
            impact: "Pode reduzir input lag e micro-stutters em GPUs compatíveis. Requer reinicialização para ativar. Comprovar com captura de FPS após reiniciar.",
            category: "game",
            subkey: "SYSTEM\\CurrentControlSet\\Control\\GraphicsDrivers",
            value_name: "HwSchMode",
            target: 2,
            already_msg: "Hardware Accelerated GPU Scheduling já ativado.",
            requires_reboot: true,
        }),
        EntryView::HkcuRunDisable(HkcuRunDisable {
            id: "services.onedrive_startup_disable",
            name: "Desativar OneDrive na Inicialização",
            description: "Remove o OneDrive da inicialização automática do Windows. O aplicativo não é desinstalado e pode ser aberto manualmente.",
            impact: "Elimina o processo do OneDrive no boot — reduz uso de RAM e tempo de inicialização.",
            run_value_name: "OneDrive",
            not_found_msg: "OneDrive não encontrado na inicialização. Pode já estar desativado ou usar outra versão.",
        }),
        EntryView::HkcuRunDisable(HkcuRunDisable {
            id: "services.teams_startup_disable",
            name: "Desativar Microsoft Teams na Inicialização",
            description: "Remove o Microsoft Teams da inicialização automática do Windows. O app não é desinstalado.",
            impact: "Elimina o processo do Teams no boot — reduz uso de RAM e tempo de inicialização.",
            run_value_name: "com.squirrel.Teams.Teams",
            not_found_msg: "Microsoft Teams não encontrado na inicialização. Pode já estar desativado ou usar versão diferente (Teams 2.0 não usa esta chave).",
        }),
        EntryView::HklmDwordOptFlex(HklmDwordOptFlex {
            id: "services.delivery_opt_lan",
            name: "Delivery Optimization: Somente Rede Local",
            description: "Configura o Delivery Optimization (Windows Update P2P) para compartilhar atualizações apenas com PCs da rede local, não com a internet.",
            impact: "Elimina upload de atualizações para desconhecidos na internet. Mantém o benefício de cache local.",
            category: "services",
            subkey: "SOFTWARE\\Policies\\Microsoft\\Windows\\DeliveryOptimization",
            value_name: "DODownloadMode",
            target: 1,
            already_msg: "Delivery Optimization já configurado para rede local.",
            requires_reboot: false,
        }),
        EntryView::HklmDwordOptFlex(HklmDwordOptFlex {
            id: "network.tcp_nodelay",
            name: "TCP NoDelay (Desativar Nagle)",
            description: "Desativa o algoritmo de Nagle para conexões TCP — elimina o delay de agrupamento de pacotes pequenos nas conexões de jogos.",
            impact: "Reduz latência de pacotes de input em jogos online sensíveis. Pode aumentar número de pacotes enviados — ideal em redes de baixa latência.",
            category: "network",
            subkey: "SYSTEM\\CurrentControlSet\\Services\\Tcpip\\Parameters",
            value_name: "TcpNoDelay",
            target: 1,
            already_msg: "TCP NoDelay já ativado.",
            requires_reboot: false,
        }),
        EntryView::HklmDwordOptFlex(HklmDwordOptFlex {
            id: "memory.sysmain_disable",
            name: "Desativar SysMain (Superfetch)",
            description: "Desativa o serviço SysMain (Superfetch) que pré-carrega apps na RAM em antecipação ao uso. Em PCs com SSD NVMe e bastante RAM, o overhead de gerenciamento supera o benefício.",
            impact: "Libera RAM de buffer de prefetch. Mais eficaz em sistemas com 8–16 GB de RAM e SSD. Em HDDs pode piorar carregamento de apps — use somente com SSD.",
            category: "memory",
            subkey: "SYSTEM\\CurrentControlSet\\Services\\SysMain",
            value_name: "Start",
            target: 4,
            already_msg: "SysMain já desativado.",
            requires_reboot: true,
        }),
        EntryView::HklmDwordOptFlex(HklmDwordOptFlex {
            id: "memory.prefetch_disable",
            name: "Desativar Prefetch do Windows",
            description: "Define EnablePrefetcher=0 para desativar o pré-carregamento de apps no boot. Com SSDs NVMe modernos o Prefetch adiciona escritas desnecessárias sem ganho mensurável.",
            impact: "Reduz escritas no SSD durante boot. Pode aumentar IOPS disponíveis. Não recomendado em HDDs — o Prefetch é essencial para performance em discos mecânicos.",
            category: "memory",
            subkey: "SYSTEM\\CurrentControlSet\\Control\\Session Manager\\Memory Management\\PrefetchParameters",
            value_name: "EnablePrefetcher",
            target: 0,
            already_msg: "Prefetch já desativado.",
            requires_reboot: false,
        }),
        EntryView::HklmDwordOptFlex(HklmDwordOptFlex {
            id: "memory.pagefile_optimize",
            name: "Não Limpar Pagefile no Desligamento",
            description: "Garante que ClearPageFileAtShutdown=0 — impede que o Windows apague o arquivo de paginação a cada desligamento. A limpeza pode adicionar 30–60s ao desligamento sem benefício prático de segurança em uso doméstico.",
            impact: "Desligamento mais rápido (pode economizar 30–60 segundos). Sem impacto em performance durante uso.",
            category: "memory",
            subkey: "SYSTEM\\CurrentControlSet\\Control\\Session Manager\\Memory Management",
            value_name: "ClearPageFileAtShutdown",
            target: 0,
            already_msg: "Pagefile já configurado (ClearPageFileAtShutdown=0).",
            requires_reboot: false,
        }),
        EntryView::HklmDwordOptFlex(HklmDwordOptFlex {
            id: "memory.large_system_cache_off",
            name: "Desativar Large System Cache",
            description: "Define LargeSystemCache=0 para que o Windows priorize memória para processos de usuário em vez de cache do sistema de arquivos. Padrão para estações de trabalho; o modo '1' é otimizado para servidores de arquivos.",
            impact: "Garante que a RAM seja alocada prioritariamente para o jogo/app em execução, não para cache de disco. Mais efetivo em sistemas com menos de 16 GB de RAM.",
            category: "memory",
            subkey: "SYSTEM\\CurrentControlSet\\Control\\Session Manager\\Memory Management",
            value_name: "LargeSystemCache",
            target: 0,
            already_msg: "Large System Cache já desativado (modo workstation).",
            requires_reboot: true,
        }),
        EntryView::HklmDwordOptFlex(HklmDwordOptFlex {
            id: "game.mpo_disable",
            name: "Desativar MPO (Multiplane Overlay)",
            description: "Define OverlayTestMode=5 para desativar o Multiplane Overlay do DWM. MPO é a principal causa de flickering de tela preta e micro-stutters em GPUs NVIDIA com múltiplos monitores.",
            impact: "Elimina o flickering/stutter do MPO em GPUs NVIDIA (GTX 900+ e RTX). Alta eficácia para quem usa múltiplos monitores ou GSYNC/FreeSync. Requer reinicialização.",
            category: "game",
            subkey: "SOFTWARE\\Microsoft\\Windows\\Dwm",
            value_name: "OverlayTestMode",
            target: 5,
            already_msg: "MPO já desativado (OverlayTestMode=5).",
            requires_reboot: true,
        }),
        EntryView::HklmDwordOptFlex(HklmDwordOptFlex {
            id: "game.tasks_games_priority",
            name: "Prioridade MMCSS para Jogos (Priority=6)",
            description: "Define Priority=6 no perfil de tarefas Games do MMCSS (Multimedia Class Scheduler Service) — garante que threads de jogos recebam preferência de agendamento de CPU sobre tarefas de background.",
            impact: "Pode reduzir frame time variance (frametimes irregulares) em jogos com muitas threads. Complementa SystemResponsiveness=0.",
            category: "game",
            subkey: "SOFTWARE\\Microsoft\\Windows NT\\CurrentVersion\\Multimedia\\SystemProfile\\Tasks\\Games",
            value_name: "Priority",
            target: 6,
            already_msg: "Prioridade de tarefas de jogos já configurada.",
            requires_reboot: false,
        }),
        EntryView::HkcuVendorDwordOpt(HkcuVendorDwordOpt {
            id: "nvidia.ansel_disable",
            name: "NVIDIA: Desativar Ansel (Screenshot AI)",
            description: "Desativa o NVIDIA Ansel — ferramenta de screenshot de IA que injeta hooks nos jogos. Pode causar micro-stutters ao detectar jogos compatíveis.",
            impact: "Elimina o overhead de injeção do Ansel em jogos. Sem perda de funcionalidade para quem não usa screenshots 360°.",
            category: "nvidia",
            required_vendor: "NVIDIA",
            subkey: "Software\\NVIDIA Corporation\\Global\\Ansel",
            value_name: "Enable",
            target: 0,
            already_msg: "NVIDIA Ansel já desativado.",
        }),
        EntryView::HkcuVendorDwordOpt(HkcuVendorDwordOpt {
            id: "nvidia.overlay_disable",
            name: "NVIDIA: Desativar GeForce Overlay (In-Game)",
            description: "Desativa o overlay in-game da GeForce Experience. O overlay injeta código nos processos de jogo para exibir métricas e permitir gravação — fonte conhecida de stutters e crashes.",
            impact: "Elimina a injeção do overlay NVIDIA nos jogos. Pode resolver crashes inexplicáveis em jogos anti-cheat. Não afeta a GeForce Experience fora dos jogos.",
            category: "nvidia",
            required_vendor: "NVIDIA",
            subkey: "Software\\NVIDIA Corporation\\Global\\GFExperience",
            value_name: "EnableGameOverlay",
            target: 0,
            already_msg: "Overlay NVIDIA in-game já desativado.",
        }),
        EntryView::AmdUlpsDisable(AmdUlpsDisable),
        EntryView::HklmDwordOptFlex(HklmDwordOptFlex {
            id: "network.dns_negative_cache_off",
            name: "DNS: Desativar Cache de Falhas (MaxNegativeCacheTtl=0)",
            description: "Define MaxNegativeCacheTtl=0 no Dnscache — o Windows para de armazenar respostas 'domínio não encontrado' em cache. Útil quando servidores de jogo usam DNS dinâmico que muda rapidamente.",
            impact: "Evita que erros de resolução DNS sejam mantidos em cache por até 300s (padrão). Pode reduzir o tempo de reconexão quando o IP do servidor muda. Pode aumentar levemente a carga no DNS resolver em caso de domínios inexistentes.",
            category: "network",
            subkey: "SYSTEM\\CurrentControlSet\\Services\\Dnscache\\Parameters",
            value_name: "MaxNegativeCacheTtl",
            target: 0,
            already_msg: "MaxNegativeCacheTtl já desativado.",
            requires_reboot: false,
        }),
        EntryView::HklmDwordOptFlex(HklmDwordOptFlex {
            id: "network.lanman_bandwidth_throttle_off",
            name: "LanMan: Desativar Throttling de Largura de Banda",
            description: "Define DisableBandwidthThrottling=1 no LanmanWorkstation — remove o limite de 512 KB/s que o Windows aplica a transferências de rede em segundo plano via SMB.",
            impact: "Pode melhorar throughput em redes locais (NAS, compartilhamentos) e reduzir interferência de transferências SMB em background enquanto joga. Sem efeito em conexões à internet direta.",
            category: "network",
            subkey: "SYSTEM\\CurrentControlSet\\Services\\LanmanWorkstation\\Parameters",
            value_name: "DisableBandwidthThrottling",
            target: 1,
            already_msg: "Throttling de largura de banda LanMan já desativado.",
            requires_reboot: false,
        }),
        EntryView::HklmStringOpt(HklmStringOpt {
            id: "network.mmcss_games_scheduling_high",
            name: "MMCSS: Categoria de Agendamento de Jogos (High)",
            description: "Define Scheduling Category=High no perfil de tarefas Games do MMCSS — reforça a prioridade de agendamento de CPU para threads de jogos no Multimedia Class Scheduler.",
            impact: "Complementa SystemResponsiveness=0 e Priority=6. Pode reduzir variação de frame time em jogos com muitas threads de renderização. Ganho marginal quando outros ajustes de MMCSS já estão ativos.",
            category: "network",
            subkey: "SOFTWARE\\Microsoft\\Windows NT\\CurrentVersion\\Multimedia\\SystemProfile\\Tasks\\Games",
            value_name: "Scheduling Category",
            target: "High",
            already_msg: "MMCSS Scheduling Category para Games já está em High.",
            requires_reboot: false,
        }),
        EntryView::NetworkTcpAckFrequency(NetworkTcpAckFrequency),
    ]
}

/// The ids of the catalog, in order.
pub open spec fn catalog_ids() -> Seq<Seq<char>> {
    seq![
        "energy.power_plan_high"@,
        "cleanup.temp_files"@,
        "cleanup.old_logs"@,
        "cleanup.wu_cache"@,
        "game.game_mode"@,
        "game.xbox_game_bar"@,
        "visual_effects_gaming"@,
        "cleanup.memory_standby"@,
        "game.widgets_disable"@,
        "game.copilot_disable"@,
        "game.game_dvr_fse"@,
        "network.throttling_disable"@,
        "network.system_responsiveness"@,
        "game.background_recording_off"@,
        "game.game_bar_overlay_off"@,
        "game.mouse_accel_off"@,
        "game.hags_enable"@,
        "services.onedrive_startup_disable"@,
        "services.teams_startup_disable"@,
        "services.delivery_opt_lan"@,
        "network.tcp_nodelay"@,
        "memory.sysmain_disable"@,
        "memory.prefetch_disable"@,
        "memory.pagefile_optimize"@,
        "memory.large_system_cache_off"@,
        "game.mpo_disable"@,
        "game.tasks_games_priority"@,
        "nvidia.ansel_disable"@,
        "nvidia.overlay_disable"@,
        "amd.ulps_disable"@,
        "network.dns_negative_cache_off"@,
        "network.lanman_bandwidth_throttle_off"@,
        "network.mmcss_games_scheduling_high"@,
        "network.tcp_ack_frequency"@,
    ]
}

/// Number of optimizations in the catalog.
pub const CATALOG_LEN: usize = 34;

/// Every optimization of the catalog, in order. The cleanups of temporary
/// files scan `temp_dirs`.
pub fn catalog(temp_dirs: &[String]) -> (v: Vec<CatalogEntry>)
    ensures
        v@.len() == CATALOG_LEN,
        forall|i: int| 0 <= i < CATALOG_LEN ==> (#[trigger] v@[i]).view() == catalog_table(strings_view(temp_dirs@))[i],
{
    let mut v: Vec<CatalogEntry> = Vec::new();
    v.push(CatalogEntry::PowerPlanHigh(PowerPlanHigh));
    v.push(CatalogEntry::FileCleanup(FileCleanup::temp_files(temp_dirs)));
    v.push(CatalogEntry::FileCleanup(FileCleanup::old_logs(temp_dirs)));
    v.push(CatalogEntry::FileCleanup(FileCleanup::wu_cache()));
    v.push(CatalogEntry::RegistryToggle(RegistryToggle::game_mode()));
    v.push(CatalogEntry::RegistryToggle(RegistryToggle::xbox_game_bar()));
    v.push(CatalogEntry::VisualEffectsGaming(VisualEffectsGaming));
    v.push(CatalogEntry::MemoryStandbyClean(MemoryStandbyClean));
    v.push(CatalogEntry::HkcuDwordOpt(HkcuDwordOpt {
        id: "game.widgets_disable",
        name: "Desativar Widgets da Barra de Tarefas",
        description: "Remove o botão de Widgets (notícias/tempo) da barra de tarefas.",
        impact: "Elimina processo de widgets em segundo plano. Comprovar com monitor de CPU.",
        subkey: "Software\\Microsoft\\Windows\\CurrentVersion\\Explorer\\Advanced",
        value_name: "TaskbarDa",
        target: 0,
        already_msg: "Widgets já desativados.",
    }));
    v.push(CatalogEntry::HkcuDwordOpt(HkcuDwordOpt {
        id: "game.copilot_disable",
        name: "Desativar Botão do Copilot",
        description: "Remove o botão do Copilot da barra de tarefas.",
        impact: "Remove entrada visual e processo de fundo do Copilot.",
        subkey: "Software\\Microsoft\\Windows\\CurrentVersion\\Explorer\\Advanced",
        value_name: "ShowCopilotButton",
        target: 0,
        already_msg: "Botão do Copilot já desativado.",
    }));
    v.push(CatalogEntry::HkcuDwordOpt(HkcuDwordOpt {
        id: "game.game_dvr_fse",
        name: "Game DVR: Modo FSE",
        description: "Configura o Game DVR para não interferir em modo full-screen exclusivo.",
        impact: "Reduz overhead de captura em full-screen exclusivo. Comprovar com FPS.",
        subkey: "System\\GameConfigStore",
        value_name: "GameDVR_FSEBehaviorMode",
        target: 2,
        already_msg: "Game DVR FSE já configurado.",
    }));
    v.push(CatalogEntry::HklmDwordOpt(HklmDwordOpt {
        id: "network.throttling_disable",
        name: "Desativar Network Throttling",
        description: "Define NetworkThrottlingIndex=0xFFFFFFFF para remover limite de largura de banda do subsistema multimídia.",
        impact: "Pode reduzir latência de rede em jogos online. Comprovar com ping estável — não garante melhora em todas as redes.",
        subkey: "SOFTWARE\\Microsoft\\Windows NT\\CurrentVersion\\Multimedia\\SystemProfile",
        value_name: "NetworkThrottlingIndex",
        target: 0xFFFFFFFF,
        already_msg: "Network throttling já desativado.",
    }));
    v.push(CatalogEntry::HklmDwordOpt(HklmDwordOpt {
        id: "network.system_responsiveness",
        name: "Responsividade do Sistema (Gaming)",
        description: "Define SystemResponsiveness=0 para priorizar tarefas de multimídia/jogos sobre serviços de background.",
        impact: "Reserva mais CPU para o jogo em detrimento de tarefas de background. Comprovar com FPS e latência.",
        subkey: "SOFTWARE\\Microsoft\\Windows NT\\CurrentVersion\\Multimedia\\SystemProfile",
        value_name: "SystemResponsiveness",
        target: 0,
        already_msg: "SystemResponsiveness já configurado para jogos.",
    }));
    v.push(CatalogEntry::HkcuDwordOpt(HkcuDwordOpt {
        id: "game.background_recording_off",
        name: "Desativar Gravação em Segundo Plano",
        description: "Desativa o AppCapture do Windows — impede captura automática de gameplay em segundo plano pelo Game DVR.",
        impact: "Libera CPU/GPU de captura de vídeo. Mais recursos para o jogo sem gravar nada.",
        subkey: "Software\\Microsoft\\Windows\\CurrentVersion\\GameDVR",
        value_name: "AppCaptureEnabled",
        target: 0,
        already_msg: "Gravação em segundo plano já desativada.",
    }));
    v.push(CatalogEntry::HkcuDwordOpt(HkcuDwordOpt {
        id: "game.game_bar_overlay_off",
        name: "Desativar Overlay do Game Bar",
        description: "Desativa a interface overlay do Xbox Game Bar durante o jogo. O app permanece instalado e pode ser reativado.",
        impact: "Elimina sobreposição da interface durante gameplay e reduz uso de memória pelo Game Bar.",
        subkey: "Software\\Microsoft\\GameBar",
        value_name: "UseNexusForGameBarEnabled",
        target: 0,
        already_msg: "Overlay do Game Bar já desativado.",
    }));
    v.push(CatalogEntry::MouseAccelOff(MouseAccelOff));
    v.push(CatalogEntry::HklmDwordOptFlex(HklmDwordOptFlex {
        id: "game.hags_enable",
        name: "Hardware Accelerated GPU Scheduling (HAGS)",
        description: "Permite que a GPU gerencie sua própria memória de vídeo diretamente, reduzindo a latência de frames no pipeline de renderização.",
        impact: "Pode reduzir input lag e micro-stutters em GPUs compatíveis. Requer reinicialização para ativar. Comprovar com captura de FPS após reiniciar.",
        category: "game",
        subkey: "SYSTEM\\CurrentControlSet\\Control\\GraphicsDrivers",
        value_name: "HwSchMode",
        target: 2,
        already_msg: "Hardware Accelerated GPU Scheduling já ativado.",
        requires_reboot: true,
    }));
    v.push(CatalogEntry::HkcuRunDisable(HkcuRunDisable {
        id: "services.onedrive_startup_disable",
        name: "Desativar OneDrive na Inicialização",
        description: "Remove o OneDrive da inicialização automática do Windows. O aplicativo não é desinstalado e pode ser aberto manualmente.",
        impact: "Elimina o processo do OneDrive no boot — reduz uso de RAM e tempo de inicialização.",
        run_value_name: "OneDrive",
        not_found_msg: "OneDrive não encontrado na inicialização. Pode já estar desativado ou usar outra versão.",
    }));
    v.push(CatalogEntry::HkcuRunDisable(HkcuRunDisable {
        id: "services.teams_startup_disable",
        name: "Desativar Microsoft Teams na Inicialização",
        description: "Remove o Microsoft Teams da inicialização automática do Windows. O app não é desinstalado.",
        impact: "Elimina o processo do Teams no boot — reduz uso de RAM e tempo de inicialização.",
        run_value_name: "com.squirrel.Teams.Teams",
        not_found_msg: "Microsoft Teams não encontrado na inicialização. Pode já estar desativado ou usar versão diferente (Teams 2.0 não usa esta chave).",
    }));
    v.push(CatalogEntry::HklmDwordOptFlex(HklmDwordOptFlex {
        id: "services.delivery_opt_lan",
        name: "Delivery Optimization: Somente Rede Local",
        description: "Configura o Delivery Optimization (Windows Update P2P) para compartilhar atualizações apenas com PCs da rede local, não com a internet.",
        impact: "Elimina upload de atualizações para desconhecidos na internet. Mantém o benefício de cache local.",
        category: "services",
        subkey: "SOFTWARE\\Policies\\Microsoft\\Windows\\DeliveryOptimization",
        value_name: "DODownloadMode",
        target: 1,
        already_msg: "Delivery Optimization já configurado para rede local.",
        requires_reboot: false,
    }));
    v.push(CatalogEntry::HklmDwordOptFlex(HklmDwordOptFlex {
        id: "network.tcp_nodelay",
        name: "TCP NoDelay (Desativar Nagle)",
        description: "Desativa o algoritmo de Nagle para conexões TCP — elimina o delay de agrupamento de pacotes pequenos nas conexões de jogos.",
        impact: "Reduz latência de pacotes de input em jogos online sensíveis. Pode aumentar número de pacotes enviados — ideal em redes de baixa latência.",
        category: "network",
        subkey: "SYSTEM\\CurrentControlSet\\Services\\Tcpip\\Parameters",
        value_name: "TcpNoDelay",
        target: 1,
        already_msg: "TCP NoDelay já ativado.",
        requires_reboot: false,
    }));
    v.push(CatalogEntry::HklmDwordOptFlex(HklmDwordOptFlex {
        id: "memory.sysmain_disable",
        name: "Desativar SysMain (Superfetch)",
        description: "Desativa o serviço SysMain (Superfetch) que pré-carrega apps na RAM em antecipação ao uso. Em PCs com SSD NVMe e bastante RAM, o overhead de gerenciamento supera o benefício.",
        impact: "Libera RAM de buffer de prefetch. Mais eficaz em sistemas com 8–16 GB de RAM e SSD. Em HDDs pode piorar carregamento de apps — use somente com SSD.",
        category: "memory",
        subkey: "SYSTEM\\CurrentControlSet\\Services\\SysMain",
        value_name: "Start",
        target: 4,
        already_msg: "SysMain já desativado.",
        requires_reboot: true,
    }));
    v.push(CatalogEntry::HklmDwordOptFlex(HklmDwordOptFlex {
        id: "memory.prefetch_disable",
        name: "Desativar Prefetch do Windows",
        description: "Define EnablePrefetcher=0 para desativar o pré-carregamento de apps no boot. Com SSDs NVMe modernos o Prefetch adiciona escritas desnecessárias sem ganho mensurável.",
        impact: "Reduz escritas no SSD durante boot. Pode aumentar IOPS disponíveis. Não recomendado em HDDs — o Prefetch é essencial para performance em discos mecânicos.",
        category: "memory",
        subkey: "SYSTEM\\CurrentControlSet\\Control\\Session Manager\\Memory Management\\PrefetchParameters",
        value_name: "EnablePrefetcher",
        target: 0,
        already_msg: "Prefetch já desativado.",
        requires_reboot: false,
    }));
    v.push(CatalogEntry::HklmDwordOptFlex(HklmDwordOptFlex {
        id: "memory.pagefile_optimize",
        name: "Não Limpar Pagefile no Desligamento",
        description: "Garante que ClearPageFileAtShutdown=0 — impede que o Windows apague o arquivo de paginação a cada desligamento. A limpeza pode adicionar 30–60s ao desligamento sem benefício prático de segurança em uso doméstico.",
        impact: "Desligamento mais rápido (pode economizar 30–60 segundos). Sem impacto em performance durante uso.",
        category: "memory",
        subkey: "SYSTEM\\CurrentControlSet\\Control\\Session Manager\\Memory Management",
        value_name: "ClearPageFileAtShutdown",
        target: 0,
        already_msg: "Pagefile já configurado (ClearPageFileAtShutdown=0).",
        requires_reboot: false,
    }));
    v.push(CatalogEntry::HklmDwordOptFlex(HklmDwordOptFlex {
        id: "memory.large_system_cache_off",
        name: "Desativar Large System Cache",
        description: "Define LargeSystemCache=0 para que o Windows priorize memória para processos de usuário em vez de cache do sistema de arquivos. Padrão para estações de trabalho; o modo '1' é otimizado para servidores de arquivos.",
        impact: "Garante que a RAM seja alocada prioritariamente para o jogo/app em execução, não para cache de disco. Mais efetivo em sistemas com menos de 16 GB de RAM.",
        category: "memory",
        subkey: "SYSTEM\\CurrentControlSet\\Control\\Session Manager\\Memory Management",
        value_name: "LargeSystemCache",
        target: 0,
        already_msg: "Large System Cache já desativado (modo workstation).",
        requires_reboot: true,
    }));
    v.push(CatalogEntry::HklmDwordOptFlex(HklmDwordOptFlex {
        id: "game.mpo_disable",
        name: "Desativar MPO (Multiplane Overlay)",
        description: "Define OverlayTestMode=5 para desativar o Multiplane Overlay do DWM. MPO é a principal causa de flickering de tela preta e micro-stutters em GPUs NVIDIA com múltiplos monitores.",
        impact: "Elimina o flickering/stutter do MPO em GPUs NVIDIA (GTX 900+ e RTX). Alta eficácia para quem usa múltiplos monitores ou GSYNC/FreeSync. Requer reinicialização.",
        category: "game",
        subkey: "SOFTWARE\\Microsoft\\Windows\\Dwm",
        value_name: "OverlayTestMode",
        target: 5,
        already_msg: "MPO já desativado (OverlayTestMode=5).",
        requires_reboot: true,
    }));
    v.push(CatalogEntry::HklmDwordOptFlex(HklmDwordOptFlex {
        id: "game.tasks_games_priority",
        name: "Prioridade MMCSS para Jogos (Priority=6)",
        description: "Define Priority=6 no perfil de tarefas Games do MMCSS (Multimedia Class Scheduler Service) — garante que threads de jogos recebam preferência de agendamento de CPU sobre tarefas de background.",
        impact: "Pode reduzir frame time variance (frametimes irregulares) em jogos com muitas threads. Complementa SystemResponsiveness=0.",
        category: "game",
        subkey: "SOFTWARE\\Microsoft\\Windows NT\\CurrentVersion\\Multimedia\\SystemProfile\\Tasks\\Games",
        value_name: "Priority",
        target: 6,
        already_msg: "Prioridade de tarefas de jogos já configurada.",
        requires_reboot: false,
    }));
    v.push(CatalogEntry::HkcuVendorDwordOpt(HkcuVendorDwordOpt {
        id: "nvidia.ansel_disable",
        name: "NVIDIA: Desativar Ansel (Screenshot AI)",
        description: "Desativa o NVIDIA Ansel — ferramenta de screenshot de IA que injeta hooks nos jogos. Pode causar micro-stutters ao detectar jogos compatíveis.",
        impact: "Elimina o overhead de injeção do Ansel em jogos. Sem perda de funcionalidade para quem não usa screenshots 360°.",
        category: "nvidia",
        required_vendor: "NVIDIA",
        subkey: "Software\\NVIDIA Corporation\\Global\\Ansel",
        value_name: "Enable",
        target: 0,
        already_msg: "NVIDIA Ansel já desativado.",
    }));
    v.push(CatalogEntry::HkcuVendorDwordOpt(HkcuVendorDwordOpt {
        id: "nvidia.overlay_disable",
        name: "NVIDIA: Desativar GeForce Overlay (In-Game)",
        description: "Desativa o overlay in-game da GeForce Experience. O overlay injeta código nos processos de jogo para exibir métricas e permitir gravação — fonte conhecida de stutters e crashes.",
        impact: "Elimina a injeção do overlay NVIDIA nos jogos. Pode resolver crashes inexplicáveis em jogos anti-cheat. Não afeta a GeForce Experience fora dos jogos.",
        category: "nvidia",
        required_vendor: "NVIDIA",
        subkey: "Software\\NVIDIA Corporation\\Global\\GFExperience",
        value_name: "EnableGameOverlay",
        target: 0,
        already_msg: "Overlay NVIDIA in-game já desativado.",
    }));
    v.push(CatalogEntry::AmdUlpsDisable(AmdUlpsDisable));
    v.push(CatalogEntry::HklmDwordOptFlex(HklmDwordOptFlex {
        id: "network.dns_negative_cache_off",
        name: "DNS: Desativar Cache de Falhas (MaxNegativeCacheTtl=0)",
        description: "Define MaxNegativeCacheTtl=0 no Dnscache — o Windows para de armazenar respostas 'domínio não encontrado' em cache. Útil quando servidores de jogo usam DNS dinâmico que muda rapidamente.",
        impact: "Evita que erros de resolução DNS sejam mantidos em cache por até 300s (padrão). Pode reduzir o tempo de reconexão quando o IP do servidor muda. Pode aumentar levemente a carga no DNS resolver em caso de domínios inexistentes.",
        category: "network",
        subkey: "SYSTEM\\CurrentControlSet\\Services\\Dnscache\\Parameters",
        value_name: "MaxNegativeCacheTtl",
        target: 0,
        already_msg: "MaxNegativeCacheTtl já desativado.",
        requires_reboot: false,
    }));
    v.push(CatalogEntry::HklmDwordOptFlex(HklmDwordOptFlex {
        id: "network.lanman_bandwidth_throttle_off",
        name: "LanMan: Desativar Throttling de Largura de Banda",
        description: "Define DisableBandwidthThrottling=1 no LanmanWorkstation — remove o limite de 512 KB/s que o Windows aplica a transferências de rede em segundo plano via SMB.",
        impact: "Pode melhorar throughput em redes locais (NAS, compartilhamentos) e reduzir interferência de transferências SMB em background enquanto joga. Sem efeito em conexões à internet direta.",
        category: "network",
        subkey: "SYSTEM\\CurrentControlSet\\Services\\LanmanWorkstation\\Parameters",
        value_name: "DisableBandwidthThrottling",
        target: 1,
        already_msg: "Throttling de largura de banda LanMan já desativado.",
        requires_reboot: false,
    }));
    v.push(CatalogEntry::HklmStringOpt(HklmStringOpt {
        id: "network.mmcss_games_scheduling_high",
        name: "MMCSS: Categoria de Agendamento de Jogos (High)",
        description: "Define Scheduling Category=High no perfil de tarefas Games do MMCSS — reforça a prioridade de agendamento de CPU para threads de jogos no Multimedia Class Scheduler.",
        impact: "Complementa SystemResponsiveness=0 e Priority=6. Pode reduzir variação de frame time em jogos com muitas threads de renderização. Ganho marginal quando outros ajustes de MMCSS já estão ativos.",
        category: "network",
        subkey: "SOFTWARE\\Microsoft\\Windows NT\\CurrentVersion\\Multimedia\\SystemProfile\\Tasks\\Games",
        value_name: "Scheduling Category",
        target: "High",
        already_msg: "MMCSS Scheduling Category para Games já está em High.",
        requires_reboot: false,
    }));
    v.push(CatalogEntry::NetworkTcpAckFrequency(NetworkTcpAckFrequency));
    v
}

/// The metadata of a catalog entry given as plain values.
pub open spec fn entry_view_meta(e: EntryView) -> InfoView {
    match e {
        EntryView::PowerPlanHigh(o) => o.spec_meta(),
        EntryView::FileCleanup(f) => make_info(
            f.id@,
            f.name@,
            f.description@,
            "cleanup"@,
            if f.requires_elevation { "Moderate"@ } else { "Safe"@ },
            "Libera espaço em disco. NÃO aumenta FPS."@,
            f.requires_elevation,
            false,
        ),
        EntryView::RegistryToggle(o) => o.spec_meta(),
        EntryView::VisualEffectsGaming(o) => o.spec_meta(),
        EntryView::MemoryStandbyClean(o) => o.spec_meta(),
        EntryView::HkcuDwordOpt(o) => o.spec_meta(),
        EntryView::HklmDwordOpt(o) => o.spec_meta(),
        EntryView::HklmDwordOptFlex(o) => o.spec_meta(),
        EntryView::HkcuRunDisable(o) => o.spec_meta(),
        EntryView::MouseAccelOff(o) => o.spec_meta(),
        EntryView::HkcuVendorDwordOpt(o) => o.spec_meta(),
        EntryView::GpuVendorHklmOpt(o) => o.spec_meta(),
        EntryView::AmdUlpsDisable(o) => o.spec_meta(),
        EntryView::HklmStringOpt(o) => o.spec_meta(),
        EntryView::NetworkTcpAckFrequency(o) => o.spec_meta(),
    }
}

/// The metadata of an entry is read off its plain view.
pub proof fn lemma_meta_of_view(c: CatalogEntry)
    ensures
        c.spec_meta() == entry_view_meta(c.view()),
{
}

/// Position `i` of the catalog carries the `i`-th id.
pub proof fn lemma_table_ids(temp_dirs: Seq<Seq<char>>)
    ensures
        catalog_table(temp_dirs).len() == CATALOG_LEN,
        catalog_ids().len() == CATALOG_LEN,
        forall|i: int|
            0 <= i < CATALOG_LEN ==> entry_view_meta(#[trigger] catalog_table(temp_dirs)[i]).id
                == catalog_ids()[i],
{
    let t = catalog_table(temp_dirs);
    let ids = catalog_ids();
    assert forall|i: int| 0 <= i < CATALOG_LEN implies entry_view_meta(#[trigger] t[i]).id == ids[i] by {
        if i == 0 { assert(entry_view_meta(t[0]).id == ids[0]); }
        if i == 1 { assert(entry_view_meta(t[1]).id == ids[1]); }
        if i == 2 { assert(entry_view_meta(t[2]).id == ids[2]); }
        if i == 3 { assert(entry_view_meta(t[3]).id == ids[3]); }
        if i == 4 { assert(entry_view_meta(t[4]).id == ids[4]); }
        if i == 5 { assert(entry_view_meta(t[5]).id == ids[5]); }
        if i == 6 { assert(entry_view_meta(t[6]).id == ids[6]); }
        if i == 7 { assert(entry_view_meta(t[7]).id == ids[7]); }
        if i == 8 { assert(entry_view_meta(t[8]).id == ids[8]); }
        if i == 9 { assert(entry_view_meta(t[9]).id == ids[9]); }
        if i == 10 { assert(entry_view_meta(t[10]).id == ids[10]); }
        if i == 11 { assert(entry_view_meta(t[11]).id == ids[11]); }
        if i == 12 { assert(entry_view_meta(t[12]).id == ids[12]); }
        if i == 13 { assert(entry_view_meta(t[13]).id == ids[13]); }
        if i == 14 { assert(entry_view_meta(t[14]).id == ids[14]); }
        if i == 15 { assert(entry_view_meta(t[15]).id == ids[15]); }
        if i == 16 { assert(entry_view_meta(t[16]).id == ids[16]); }
        if i == 17 { assert(entry_view_meta(t[17]).id == ids[17]); }
        if i == 18 { assert(entry_view_meta(t[18]).id == ids[18]); }
        if i == 19 { assert(entry_view_meta(t[19]).id == ids[19]); }
        if i == 20 { assert(entry_view_meta(t[20]).id == ids[20]); }
        if i == 21 { assert(entry_view_meta(t[21]).id == ids[21]); }
        if i == 22 { assert(entry_view_meta(t[22]).id == ids[22]); }
        if i == 23 { assert(entry_view_meta(t[23]).id == ids[23]); }
        if i == 24 { assert(entry_view_meta(t[24]).id == ids[24]); }
        if i == 25 { assert(entry_view_meta(t[25]).id == ids[25]); }
        if i == 26 { assert(entry_view_meta(t[26]).id == ids[26]); }
        if i == 27 { assert(entry_view_meta(t[27]).id == ids[27]); }
        if i == 28 { assert(entry_view_meta(t[28]).id == ids[28]); }
        if i == 29 { assert(entry_view_meta(t[29]).id == ids[29]); }
        if i == 30 { assert(entry_view_meta(t[30]).id == ids[30]); }
        if i == 31 { assert(entry_view_meta(t[31]).id == ids[31]); }
        if i == 32 { assert(entry_view_meta(t[32]).id == ids[32]); }
        if i == 33 { assert(entry_view_meta(t[33]).id == ids[33]); }
    }
}

/// The metadata of every catalog entry does not depend on the temporary
/// directories: `catalog_info` (built without directories) describes the same
/// optimizations, position by position, as `catalog` for any directories.
pub proof fn lemma_catalog_info_matches_catalog(temp_dirs: Seq<Seq<char>>)
    ensures
        catalog_table(temp_dirs).len() == catalog_table(Seq::empty()).len(),
        forall|i: int|
            0 <= i < CATALOG_LEN ==> entry_view_meta(#[trigger] catalog_table(temp_dirs)[i])
                == entry_view_meta(catalog_table(Seq::empty())[i]),
{
    let t = catalog_table(temp_dirs);
    let e = catalog_table(Seq::empty());
    assert forall|i: int| 0 <= i < CATALOG_LEN implies entry_view_meta(#[trigger] t[i]) == entry_view_meta(e[i]) by {
        if i == 0 { assert(entry_view_meta(t[0]) == entry_view_meta(e[0])); }
        if i == 1 { assert(entry_view_meta(t[1]) == entry_view_meta(e[1])); }
        if i == 2 { assert(entry_view_meta(t[2]) == entry_view_meta(e[2])); }
        if i == 3 { assert(entry_view_meta(t[3]) == entry_view_meta(e[3])); }
        if i == 4 { assert(entry_view_meta(t[4]) == entry_view_meta(e[4])); }
        if i == 5 { assert(entry_view_meta(t[5]) == entry_view_meta(e[5])); }
        if i == 6 { assert(entry_view_meta(t[6]) == entry_view_meta(e[6])); }
        if i == 7 { assert(entry_view_meta(t[7]) == entry_view_meta(e[7])); }
        if i == 8 { assert(entry_view_meta(t[8]) == entry_view_meta(e[8])); }
        if i == 9 { assert(entry_view_meta(t[9]) == entry_view_meta(e[9])); }
        if i == 10 { assert(entry_view_meta(t[10]) == entry_view_meta(e[10])); }
        if i == 11 { assert(entry_view_meta(t[11]) == entry_view_meta(e[11])); }
        if i == 12 { assert(entry_view_meta(t[12]) == entry_view_meta(e[12])); }
        if i == 13 { assert(entry_view_meta(t[13]) == entry_view_meta(e[13])); }
        if i == 14 { assert(entry_view_meta(t[14]) == entry_view_meta(e[14])); }
        if i == 15 { assert(entry_view_meta(t[15]) == entry_view_meta(e[15])); }
        if i == 16 { assert(entry_view_meta(t[16]) == entry_view_meta(e[16])); }
        if i == 17 { assert(entry_view_meta(t[17]) == entry_view_meta(e[17])); }
        if i == 18 { assert(entry_view_meta(t[18]) == entry_view_meta(e[18])); }
        if i == 19 { assert(entry_view_meta(t[19]) == entry_view_meta(e[19])); }
        if i == 20 { assert(entry_view_meta(t[20]) == entry_view_meta(e[20])); }
        if i == 21 { assert(entry_view_meta(t[21]) == entry_view_meta(e[21])); }
        if i == 22 { assert(entry_view_meta(t[22]) == entry_view_meta(e[22])); }
        if i == 23 { assert(entry_view_meta(t[23]) == entry_view_meta(e[23])); }
        if i == 24 { assert(entry_view_meta(t[24]) == entry_view_meta(e[24])); }
        if i == 25 { assert(entry_view_meta(t[25]) == entry_view_meta(e[25])); }
        if i == 26 { assert(entry_view_meta(t[26]) == entry_view_meta(e[26])); }
        if i == 27 { assert(entry_view_meta(t[27]) == entry_view_meta(e[27])); }
        if i == 28 { assert(entry_view_meta(t[28]) == entry_view_meta(e[28])); }
        if i == 29 { assert(entry_view_meta(t[29]) == entry_view_meta(e[29])); }
        if i == 30 { assert(entry_view_meta(t[30]) == entry_view_meta(e[30])); }
        if i == 31 { assert(entry_view_meta(t[31]) == entry_view_meta(e[31])); }
        if i == 32 { assert(entry_view_meta(t[32]) == entry_view_meta(e[32])); }
        if i == 33 { assert(entry_view_meta(t[33]) == entry_view_meta(e[33])); }
    }
}

/// Two ids that differ in length or in their first, sixth or ninth character
/// are different.
proof fn lemma_ids_differ(a: Seq<char>, b: Seq<char>)
    requires
        a.len() != b.len() || (a.len() > 8 && b.len() > 8 && (a[0] != b[0] || a[5] != b[5] || a[8] != b[8])),
    ensures
        a != b,
{
}

/// No two optimizations of the catalog share an id.
pub proof fn lemma_catalog_ids_distinct()
    ensures
        all_distinct(catalog_ids()),
{
    reveal_strlit("energy.power_plan_high");
    reveal_strlit("cleanup.temp_files");
    reveal_strlit("cleanup.old_logs");
    reveal_strlit("cleanup.wu_cache");
    reveal_strlit("game.game_mode");
    reveal_strlit("game.xbox_game_bar");
    reveal_strlit("visual_effects_gaming");
    reveal_strlit("cleanup.memory_standby");
    reveal_strlit("game.widgets_disable");
    reveal_strlit("game.copilot_disable");
    reveal_strlit("game.game_dvr_fse");
    reveal_strlit("network.throttling_disable");
    reveal_strlit("network.system_responsiveness");
    reveal_strlit("game.background_recording_off");
    reveal_strlit("game.game_bar_overlay_off");
    reveal_strlit("game.mouse_accel_off");
    reveal_strlit("game.hags_enable");
    reveal_strlit("services.onedrive_startup_disable");
    reveal_strlit("services.teams_startup_disable");
    reveal_strlit("services.delivery_opt_lan");
    reveal_strlit("network.tcp_nodelay");
    reveal_strlit("memory.sysmain_disable");
    reveal_strlit("memory.prefetch_disable");
    reveal_strlit("memory.pagefile_optimize");
    reveal_strlit("memory.large_system_cache_off");
    reveal_strlit("game.mpo_disable");
    reveal_strlit("game.tasks_games_priority");
    reveal_strlit("nvidia.ansel_disable");
    reveal_strlit("nvidia.overlay_disable");
    reveal_strlit("amd.ulps_disable");
    reveal_strlit("network.dns_negative_cache_off");
    reveal_strlit("network.lanman_bandwidth_throttle_off");
    reveal_strlit("network.mmcss_games_scheduling_high");
    reveal_strlit("network.tcp_ack_frequency");
    let ids = catalog_ids();
    assert forall|i: int, j: int| 0 <= i < j < ids.len() implies ids[i] != ids[j] by {
        lemma_ids_differ(ids[i], ids[j]);
    }
}

/// Only the cleanups are validated by the space they free; every other
/// optimization is validated by hand.
pub proof fn lemma_validation_kinds(c: CatalogEntry)
    ensures
        c.spec_validation() == Validation::SpaceFreed <==> (c is FileCleanup || c is MemoryStandbyClean),
{
}

/// The optimization with the given id, if the catalog has one.
pub fn get(id: &str, temp_dirs: &[String]) -> (r: Option<CatalogEntry>)
    ensures
        r is None <==> !catalog_ids().contains(id@),
        r matches Some(e) ==> e.spec_meta().id == id@ && exists|i: int|
            0 <= i < CATALOG_LEN && catalog_ids()[i] == id@ && e.view() == catalog_table(
                strings_view(temp_dirs@),
            )[i],
{
    let all = catalog(temp_dirs);
    let ghost d = strings_view(temp_dirs@);
    proof {
        lemma_table_ids(d);
    }
    let mut i: usize = 0;
    while i < all.len()
        invariant
            all@.len() == CATALOG_LEN,
            i <= CATALOG_LEN,
            d == strings_view(temp_dirs@),
            forall|k: int| 0 <= k < CATALOG_LEN ==> (#[trigger] all@[k]).view() == catalog_table(d)[k],
            forall|k: int|
                0 <= k < CATALOG_LEN ==> entry_view_meta(#[trigger] catalog_table(d)[k]).id
                    == catalog_ids()[k],
            forall|k: int| 0 <= k < i ==> catalog_ids()[k] != id@,
        decreases CATALOG_LEN - i,
    {
        let e = &all[i];
        let m = e.meta();
        proof {
            lemma_meta_of_view(*e);
            assert(all@[i as int].view() == catalog_table(d)[i as int]);
            assert(entry_view_meta(catalog_table(d)[i as int]).id == catalog_ids()[i as int]);
        }
        if str_eq(m.id.as_str(), id) {
            return Some(e.clone_entry());
        }
        i = i + 1;
    }
    assert(!catalog_ids().contains(id@)) by {
        if catalog_ids().contains(id@) {
            let k = choose|k: int| 0 <= k < catalog_ids().len() && catalog_ids()[k] == id@;
            assert(catalog_ids()[k] != id@);
        }
    }
    None
}

/// The metadata of every optimization, in catalog order.
pub fn catalog_info() -> (v: Vec<OptimizationInfo>)
    ensures
        v@.len() == CATALOG_LEN,
        forall|i: int|
            0 <= i < CATALOG_LEN ==> info_view(#[trigger] v@[i]) == entry_view_meta(
                catalog_table(Seq::empty())[i],
            ),
{
    let no_dirs: Vec<String> = Vec::new();
    let all = catalog(no_dirs.as_slice());
    assert(strings_view(no_dirs@) =~= Seq::<Seq<char>>::empty());
    let mut out: Vec<OptimizationInfo> = Vec::new();
    let mut i: usize = 0;
    while i < all.len()
        invariant
            all@.len() == CATALOG_LEN,
            i <= CATALOG_LEN,
            out@.len() == i,
            forall|k: int| 0 <= k < CATALOG_LEN ==> (#[trigger] all@[k]).view() == catalog_table(Seq::empty())[k],
            forall|k: int|
                0 <= k < i ==> info_view(#[trigger] out@[k]) == entry_view_meta(
                    catalog_table(Seq::empty())[k],
                ),
        decreases CATALOG_LEN - i,
    {
        proof {
            lemma_meta_of_view(all@[i as int]);
        }
        out.push(all[i].meta());
        i = i + 1;
    }
    out
}

/// The startup entries (name, command, location) as startup items.
pub fn startup_items(entries: Vec<(String, String, String)>) -> (v: Vec<StartupItem>)
    ensures
        v@.len() == entries@.len(),
        forall|i: int|
            0 <= i < entries@.len() ==> (#[trigger] v@[i]).name@ == entries@[i].0@ && v@[i].command@
                == entries@[i].1@ && v@[i].location@ == entries@[i].2@,
{
    let mut v: Vec<StartupItem> = Vec::new();
    let mut i: usize = 0;
    while i < entries.len()
        invariant
            i <= entries@.len(),
            v@.len() == i,
            forall|k: int|
                0 <= k < i ==> (#[trigger] v@[k]).name@ == entries@[k].0@ && v@[k].command@
                    == entries@[k].1@ && v@[k].location@ == entries@[k].2@,
        decreases entries@.len() - i,
    {
        let e = &entries[i];
        v.push(
            StartupItem {
                name: owned(e.0.as_str()),
                command: owned(e.1.as_str()),
                location: owned(e.2.as_str()),
            },
        );
        i = i + 1;
    }
    v
}

fn copy_strs(v: &[&'static str]) -> (r: Vec<&'static str>)
    ensures
        r@ == v@,
{
    let mut r: Vec<&'static str> = Vec::new();
    let mut i: usize = 0;
    while i < v.len()
        invariant
            i <= v@.len(),
            r@ =~= v@.subrange(0, i as int),
        decreases v@.len() - i,
    {
        r.push(v[i]);
        i = i + 1;
    }
    assert(v@.subrange(0, v@.len() as int) =~= v@);
    r
}

impl CatalogEntry {
    /// A copy of the entry.
    pub fn clone_entry(&self) -> (c: Self)
        ensures
            c.view() == self.view(),
            c.spec_meta() == self.spec_meta(),
    {
        match self {
            CatalogEntry::FileCleanup(f) => {
                let g = FileCleanup {
                    id: f.id,
                    name: f.name,
                    description: f.description,
                    dirs: copy_strings(f.dirs.as_slice()),
                    min_age_days: f.min_age_days,
                    exts: copy_strs(f.exts.as_slice()),
                    requires_elevation: f.requires_elevation,
                    depth: f.depth,
                };
                assert(g.view() == f.view());
                CatalogEntry::FileCleanup(g)
            },
            CatalogEntry::PowerPlanHigh(o) => CatalogEntry::PowerPlanHigh(*o),
            CatalogEntry::RegistryToggle(o) => CatalogEntry::RegistryToggle(*o),
            CatalogEntry::VisualEffectsGaming(o) => CatalogEntry::VisualEffectsGaming(*o),
            CatalogEntry::MemoryStandbyClean(o) => CatalogEntry::MemoryStandbyClean(*o),
            CatalogEntry::HkcuDwordOpt(o) => CatalogEntry::HkcuDwordOpt(*o),
            CatalogEntry::HklmDwordOpt(o) => CatalogEntry::HklmDwordOpt(*o),
            CatalogEntry::HklmDwordOptFlex(o) => CatalogEntry::HklmDwordOptFlex(*o),
            CatalogEntry::HkcuRunDisable(o) => CatalogEntry::HkcuRunDisable(*o),
            CatalogEntry::MouseAccelOff(o) => CatalogEntry::MouseAccelOff(*o),
            CatalogEntry::HkcuVendorDwordOpt(o) => CatalogEntry::HkcuVendorDwordOpt(*o),
            CatalogEntry::GpuVendorHklmOpt(o) => CatalogEntry::GpuVendorHklmOpt(*o),
            CatalogEntry::AmdUlpsDisable(o) => CatalogEntry::AmdUlpsDisable(*o),
            CatalogEntry::HklmStringOpt(o) => CatalogEntry::HklmStringOpt(*o),
            CatalogEntry::NetworkTcpAckFrequency(o) => CatalogEntry::NetworkTcpAckFrequency(*o),
        }
    }
}
} // verus!
