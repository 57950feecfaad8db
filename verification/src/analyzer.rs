//! Analysis engine: findings, the TkSpeed score (0–1000) and its bands.
//!
//! The score model works on integer subscores (0–100 per category). The
//! weighted total is computed exactly: every weight is a multiple of 0.02, so
//! `total = round(Σ wᵢ·bᵢ·10)` equals `round(S / 10)` for the even integer
//! `S = 16·cpu + 16·gpu + 12·ram + 12·storage + 12·windows + 8·network
//! + 12·temperature + 6·games + 6·stability`, and `S / 10` is never a tie.

use vstd::prelude::*;

use crate::contracts::{
    classification_key, Classification, Diagnosis, Finding, ScoreBreakdown, Severity,
    TkSpeedScore,
};
use crate::text::owned;

verus! {

/// Version tag of the score model.
pub const SCORE_VERSION: &'static str = "1.0.0";

// ───────────────────────── Findings ─────────────────────────

/// Builds a finding from its parts.
pub fn finding(kind: &str, severity: Severity, title: &str, impact: &str, solution: &str) -> (f:
    Finding)
    ensures
        f.kind@ == kind@,
        f.severity == severity,
        f.title@ == title@,
        f.impact@ == impact@,
        f.solution@ == solution@,
{
    Finding {
        kind: owned(kind),
        severity,
        title: owned(title),
        impact: owned(impact),
        solution: owned(solution),
    }
}

/// Key of the finding reported for a mechanical system disk.
pub open spec fn hdd_finding_kind() -> Seq<char> {
    "storage_hdd_system"@
}

/// System volume on a mechanical disk (HDD): a low-severity finding.
pub fn detect_hdd_system(is_ssd: bool) -> (r: Option<Finding>)
    ensures
        is_ssd <==> r is None,
        r matches Some(f) ==> f.kind@ == hdd_finding_kind() && f.severity == Severity::Low,
{
    if !is_ssd {
        Some(
            finding(
                "storage_hdd_system",
                Severity::Low,
                "Disco do sistema é mecânico (HDD)",
                "HDDs têm latência muito maior que SSDs, deixando boot e aplicativos lentos.",
                "Considere migrar o Windows para um SSD NVMe/SATA.",
            ),
        )
    } else {
        None
    }
}

// ───────────────────────── Score ─────────────────────────

/// Integer form of the weighted sum: ten times the exact weighted total.
pub open spec fn weighted_sum(b: ScoreBreakdown) -> int {
    16 * b.cpu + 16 * b.gpu + 12 * b.ram + 12 * b.storage + 12 * b.windows + 8 * b.network + 12
        * b.temperature + 6 * b.games + 6 * b.stability
}

/// The total score of a breakdown: the weighted sum rounded to the nearest
/// integer, saturated at the largest `u16`.
pub open spec fn score_total(b: ScoreBreakdown) -> int {
    let t = (weighted_sum(b) + 5) / 10;
    if t > 65535 {
        65535
    } else {
        t
    }
}

/// Classification band of a total score.
pub open spec fn band(total: int) -> Classification {
    if total <= 199 {
        Classification::Critico
    } else if total <= 449 {
        Classification::Regular
    } else if total <= 699 {
        Classification::Bom
    } else if total <= 899 {
        Classification::Excelente
    } else {
        Classification::Elite
    }
}

/// Position of a band in the order Critico < Regular < Bom < Excelente < Elite.
pub open spec fn band_rank(c: Classification) -> int {
    match c {
        Classification::Critico => 0,
        Classification::Regular => 1,
        Classification::Bom => 2,
        Classification::Excelente => 3,
        Classification::Elite => 4,
    }
}

/// Whether every subscore lies in 0..=100.
pub open spec fn subscores_in_range(b: ScoreBreakdown) -> bool {
    &&& b.cpu <= 100
    &&& b.gpu <= 100
    &&& b.ram <= 100
    &&& b.storage <= 100
    &&& b.windows <= 100
    &&& b.network <= 100
    &&& b.temperature <= 100
    &&& b.games <= 100
    &&& b.stability <= 100
}

/// Classification band of a total score.
pub fn classify(total: u16) -> (c: Classification)
    ensures
        c == band(total as int),
{
    if total <= 199 {
        Classification::Critico
    } else if total <= 449 {
        Classification::Regular
    } else if total <= 699 {
        Classification::Bom
    } else if total <= 899 {
        Classification::Excelente
    } else {
        Classification::Elite
    }
}

/// Computes the TkSpeed score (0–1000 for subscores in 0..=100) from the
/// per-category subscores.
pub fn compute(b: &ScoreBreakdown) -> (s: TkSpeedScore)
    ensures
        s.total == score_total(*b),
        s.classification == band(s.total as int),
        s.breakdown == *b,
        s.score_version@ == SCORE_VERSION@,
{
    let sum: u64 = 16 * (b.cpu as u64) + 16 * (b.gpu as u64) + 12 * (b.ram as u64) + 12 * (
    b.storage as u64) + 12 * (b.windows as u64) + 8 * (b.network as u64) + 12 * (
    b.temperature as u64) + 6 * (b.games as u64) + 6 * (b.stability as u64);
    let t: u64 = (sum + 5) / 10;
    let total: u16 = if t > 65535 {
        65535
    } else {
        t as u16
    };
    TkSpeedScore {
        total,
        classification: classify(total),
        breakdown: *b,
        score_version: owned(SCORE_VERSION),
    }
}

/// Points that one finding of a given severity takes from the health subscore.
pub open spec fn severity_penalty(s: Severity) -> nat {
    match s {
        Severity::Critical => 35,
        Severity::High => 20,
        Severity::Medium => 10,
        Severity::Low => 4,
        Severity::Info => 0,
    }
}

/// Total penalty of a list of findings.
pub open spec fn penalty_sum(fs: Seq<Finding>) -> nat
    decreases fs.len(),
{
    if fs.len() == 0 {
        0
    } else {
        penalty_sum(fs.drop_last()) + severity_penalty(fs.last().severity)
    }
}

/// Health subscore derived from the detected findings: 100 minus the total
/// penalty, floored at 0.
pub open spec fn health_of(fs: Seq<Finding>) -> int {
    if penalty_sum(fs) >= 100 {
        0
    } else {
        100 - penalty_sum(fs)
    }
}

/// Stability (health) subscore of the MVP score: every finding lowers it by
/// the penalty of its severity; the result stays within 0..=100.
pub fn stability_from_findings(findings: &[Finding]) -> (h: u16)
    ensures
        h == health_of(findings@),
        h <= 100,
{
    let mut acc: u32 = 0;
    let mut i: usize = 0;
    while i < findings.len()
        invariant
            i <= findings@.len(),
            penalty_sum(findings@.subrange(0, i as int)) >= 100 ==> acc >= 100,
            penalty_sum(findings@.subrange(0, i as int)) < 100 ==> acc == penalty_sum(
                findings@.subrange(0, i as int),
            ),
            acc < 200,
        decreases findings@.len() - i,
    {
        let pen: u32 = match findings[i].severity {
            Severity::Critical => 35,
            Severity::High => 20,
            Severity::Medium => 10,
            Severity::Low => 4,
            Severity::Info => 0,
        };
        assert(findings@.subrange(0, i + 1).drop_last() == findings@.subrange(0, i as int));
        if acc < 100 {
            acc = acc + pen;
        }
        i = i + 1;
    }
    assert(findings@.subrange(0, findings@.len() as int) == findings@);
    if acc >= 100 {
        0
    } else {
        (100 - acc) as u16
    }
}

/// Breakdown of the MVP score: the measured subscores, with the dimensions
/// not yet measured (GPU, Windows, network, temperature, games) set to the
/// neutral mean of CPU, RAM and storage.
pub fn mvp_breakdown(cpu: u16, ram: u16, storage: u16, stability: u16) -> (b: ScoreBreakdown)
    ensures
        b.cpu == cpu,
        b.ram == ram,
        b.storage == storage,
        b.stability == stability,
        b.gpu == (cpu + ram + storage) / 3,
        b.windows == b.gpu,
        b.network == b.gpu,
        b.temperature == b.gpu,
        b.games == b.gpu,
{
    let neutral: u16 = ((cpu as u32 + ram as u32 + storage as u32) / 3) as u16;
    ScoreBreakdown {
        cpu,
        gpu: neutral,
        ram,
        storage,
        windows: neutral,
        network: neutral,
        temperature: neutral,
        games: neutral,
        stability,
    }
}

/// Assembles a score from an already computed total and its breakdown.
pub fn score_with_total(total: u16, breakdown: ScoreBreakdown) -> (s: TkSpeedScore)
    ensures
        s.total == total,
        s.classification == band(total as int),
        s.breakdown == breakdown,
        s.score_version@ == SCORE_VERSION@,
{
    TkSpeedScore {
        total,
        classification: classify(total),
        breakdown,
        score_version: owned(SCORE_VERSION),
    }
}

// ───────────────────────── Engine ─────────────────────────

/// Orchestrates the detectors and composes the diagnosis.
#[derive(Debug, Clone, Copy, PartialEq, Eq, Structural)]
pub struct AnalyzerEngine;

impl AnalyzerEngine {
    pub fn new() -> (e: Self)
        ensures
            e == AnalyzerEngine,
    {
        AnalyzerEngine
    }
}

/// Empty diagnosis (initial state): no findings and an all-zero score.
pub fn empty_diagnosis(run_id: i64) -> (d: Diagnosis)
    ensures
        d.run_id == run_id,
        d.findings@.len() == 0,
        d.score.total == 0,
        d.score.classification == Classification::Critico,
        d.score.breakdown == (ScoreBreakdown {
            cpu: 0,
            gpu: 0,
            ram: 0,
            storage: 0,
            windows: 0,
            network: 0,
            temperature: 0,
            games: 0,
            stability: 0,
        }),
        d.score.score_version@ == SCORE_VERSION@,
{
    Diagnosis {
        run_id,
        findings: Vec::new(),
        score: TkSpeedScore {
            total: 0,
            classification: Classification::Critico,
            breakdown: ScoreBreakdown {
                cpu: 0,
                gpu: 0,
                ram: 0,
                storage: 0,
                windows: 0,
                network: 0,
                temperature: 0,
                games: 0,
                stability: 0,
            },
            score_version: owned(SCORE_VERSION),
        },
    }
}

// ───────────────────────── Laws ─────────────────────────

/// With every subscore in 0..=100 the total lies in 0..=1000.
pub proof fn lemma_total_at_most_1000(b: ScoreBreakdown)
    requires
        subscores_in_range(b),
    ensures
        0 <= score_total(b) <= 1000,
{
}

/// A machine with every subscore at 100 scores exactly 1000 and is Elite.
pub proof fn lemma_perfect_machine_is_elite(b: ScoreBreakdown)
    requires
        b.cpu == 100 && b.gpu == 100 && b.ram == 100 && b.storage == 100 && b.windows == 100
            && b.network == 100 && b.temperature == 100 && b.games == 100 && b.stability == 100,
    ensures
        score_total(b) == 1000,
        band(score_total(b)) == Classification::Elite,
{
}

/// Raising any subscore never lowers the total.
pub proof fn lemma_total_monotone(a: ScoreBreakdown, b: ScoreBreakdown)
    requires
        a.cpu <= b.cpu,
        a.gpu <= b.gpu,
        a.ram <= b.ram,
        a.storage <= b.storage,
        a.windows <= b.windows,
        a.network <= b.network,
        a.temperature <= b.temperature,
        a.games <= b.games,
        a.stability <= b.stability,
    ensures
        score_total(a) <= score_total(b),
{
    assert(weighted_sum(a) <= weighted_sum(b));
    assert((weighted_sum(a) + 5) / 10 <= (weighted_sum(b) + 5) / 10) by (nonlinear_arith)
        requires
            weighted_sum(a) <= weighted_sum(b),
    ;
}

/// A higher total never falls into a lower band.
pub proof fn lemma_band_monotone(t1: int, t2: int)
    requires
        t1 <= t2,
    ensures
        band_rank(band(t1)) <= band_rank(band(t2)),
{
}

/// The bands are contiguous: each band is exactly its interval of totals.
pub proof fn lemma_band_intervals(t: int)
    requires
        0 <= t,
    ensures
        band(t) == Classification::Critico <==> t <= 199,
        band(t) == Classification::Regular <==> 200 <= t <= 449,
        band(t) == Classification::Bom <==> 450 <= t <= 699,
        band(t) == Classification::Excelente <==> 700 <= t <= 899,
        band(t) == Classification::Elite <==> 900 <= t,
{
}

/// The health subscore never exceeds 100, and each further finding can only
/// lower it.
pub proof fn lemma_health_antitone(fs: Seq<Finding>, f: Finding)
    ensures
        0 <= health_of(fs) <= 100,
        health_of(fs.push(f)) <= health_of(fs),
{
    assert(fs.push(f).drop_last() == fs);
}

/// One more finding lowers the health subscore by the weight of its
/// severity, floored at 0: 35 for critical, 20 for high, 10 for medium, 4 for
/// low, nothing for informational findings. So a medium finding strictly
/// lowers a positive health, and health starts at 100 without findings.
pub proof fn lemma_finding_costs_by_severity(fs: Seq<Finding>, f: Finding)
    ensures
        health_of(Seq::<Finding>::empty()) == 100,
        health_of(fs.push(f)) == (if health_of(fs) - (match f.severity {
            Severity::Critical => 35int,
            Severity::High => 20int,
            Severity::Medium => 10int,
            Severity::Low => 4int,
            Severity::Info => 0int,
        }) < 0 {
            0
        } else {
            health_of(fs) - (match f.severity {
                Severity::Critical => 35int,
                Severity::High => 20int,
                Severity::Medium => 10int,
                Severity::Low => 4int,
                Severity::Info => 0int,
            })
        }),
        f.severity == Severity::Medium && health_of(fs) > 0 ==> health_of(fs.push(f)) < health_of(fs),
{
    assert(fs.push(f).drop_last() == fs);
}

/// Distinct bands have distinct persistence keys.
pub proof fn lemma_classification_keys_distinct(a: Classification, b: Classification)
    ensures
        a != b ==> classification_key(a) != classification_key(b),
{
    reveal_strlit("critico");
    reveal_strlit("regular");
    reveal_strlit("bom");
    reveal_strlit("excelente");
    reveal_strlit("elite");
    assert("critico"@[0] != "regular"@[0]);
    assert("critico"@[0] != "bom"@[0]);
    assert("critico"@[0] != "excelente"@[0]);
    assert("critico"@[0] != "elite"@[0]);
    assert("regular"@[0] != "bom"@[0]);
    assert("regular"@[0] != "excelente"@[0]);
    assert("regular"@[0] != "elite"@[0]);
    assert("bom"@[0] != "excelente"@[0]);
    assert("bom"@[0] != "elite"@[0]);
    assert("excelente"@.len() != "elite"@.len());
}

} // verus!
