//! Decisions of the optimization pipeline.
//!
//! After an optimization is applied, its effect is proved in one of three ways
//! (benchmark, space freed, manual). These functions map the evidence to the
//! decision (keep, revert, inconclusive) and to the persisted status.

use vstd::prelude::*;

use crate::contracts::{OptDecision, PerfVerdict};
use crate::text::str_eq;

verus! {

/// The metric and verdict of one row of a before/after comparison.
#[derive(Debug, Clone)]
pub struct VerdictRow {
    pub metric: String,
    pub verdict: PerfVerdict,
}

/// The metric preferred as primary evidence.
pub open spec fn primary_metric() -> Seq<char> {
    "cpu_multi"@
}

/// Whether row `i` is the first row whose metric is the primary metric.
pub open spec fn is_first_primary(rows: Seq<VerdictRow>, i: int) -> bool {
    &&& 0 <= i < rows.len()
    &&& rows[i].metric@ == primary_metric()
    &&& forall|k: int| 0 <= k < i ==> (#[trigger] rows[k]).metric@ != primary_metric()
}

/// The row used as primary evidence: the first `cpu_multi` row, else the
/// first row, else none.
pub open spec fn primary_row(rows: Seq<VerdictRow>) -> Option<int> {
    if exists|i: int| is_first_primary(rows, i) {
        Some(choose|i: int| is_first_primary(rows, i))
    } else if rows.len() > 0 {
        Some(0)
    } else {
        None
    }
}

/// The decision on a benchmarked optimization.
pub open spec fn decision_of(reliable: bool, rows: Seq<VerdictRow>) -> OptDecision {
    if !reliable {
        OptDecision::Inconclusive
    } else {
        match primary_row(rows) {
            None => OptDecision::Inconclusive,
            Some(i) => match rows[i].verdict {
                PerfVerdict::Gain => OptDecision::Keep,
                PerfVerdict::Loss => OptDecision::Revert,
                PerfVerdict::NoChange => OptDecision::Revert,
                PerfVerdict::Unstable => OptDecision::Inconclusive,
            },
        }
    }
}

/// There is at most one first primary row.
proof fn lemma_first_primary_unique(rows: Seq<VerdictRow>, i: int, j: int)
    requires
        is_first_primary(rows, i),
        is_first_primary(rows, j),
    ensures
        i == j,
{
    if i < j {
        assert(rows[i].metric@ != primary_metric());
    } else if j < i {
        assert(rows[j].metric@ != primary_metric());
    }
}

/// Index of the row used as primary evidence.
pub fn primary_row_index(rows: &[VerdictRow]) -> (r: Option<usize>)
    ensures
        r matches Some(i) ==> primary_row(rows@) == Some(i as int),
        r is None ==> primary_row(rows@) is None,
{
    let mut i: usize = 0;
    while i < rows.len()
        invariant
            i <= rows@.len(),
            forall|k: int| 0 <= k < i ==> (#[trigger] rows@[k]).metric@ != primary_metric(),
        decreases rows@.len() - i,
    {
        if str_eq(rows[i].metric.as_str(), "cpu_multi") {
            assert(is_first_primary(rows@, i as int));
            proof {
                let c = choose|c: int| is_first_primary(rows@, c);
                lemma_first_primary_unique(rows@, c, i as int);
            }
            return Some(i);
        }
        i = i + 1;
    }
    assert(!exists|c: int| is_first_primary(rows@, c)) by {
        if exists|c: int| is_first_primary(rows@, c) {
            let c = choose|c: int| is_first_primary(rows@, c);
            assert(rows@[c].metric@ != primary_metric());
        }
    }
    if rows.len() > 0 {
        Some(0)
    } else {
        None
    }
}

/// Maps the benchmark verdict to a decision. An unreliable comparison never
/// claims a gain.
pub fn decide(reliable: bool, rows: &[VerdictRow]) -> (d: OptDecision)
    ensures
        d == decision_of(reliable, rows@),
{
    if !reliable {
        return OptDecision::Inconclusive;
    }
    match primary_row_index(rows) {
        None => OptDecision::Inconclusive,
        Some(i) => match rows[i].verdict {
            PerfVerdict::Gain => OptDecision::Keep,
            PerfVerdict::Loss => OptDecision::Revert,
            PerfVerdict::NoChange => OptDecision::Revert,
            PerfVerdict::Unstable => OptDecision::Inconclusive,
        },
    }
}

/// Benchmark path: the persisted status of a decision and whether the
/// snapshot is rolled back. Only Keep stays applied.
pub fn benchmark_outcome(decision: OptDecision) -> (r: (&'static str, bool))
    ensures
        decision == OptDecision::Keep ==> r.0@ == "kept"@,
        decision == OptDecision::Revert ==> r.0@ == "reverted"@,
        decision == OptDecision::Inconclusive ==> r.0@ == "inconclusive"@,
        r.1 == (decision != OptDecision::Keep),
{
    match decision {
        OptDecision::Keep => ("kept", false),
        OptDecision::Revert => ("reverted", true),
        OptDecision::Inconclusive => ("inconclusive", true),
    }
}

/// Cleanup path (space freed): an applied cleanup is kept; a failed one is
/// inconclusive.
pub fn space_freed_decision(applied_ok: bool) -> (r: (&'static str, OptDecision))
    ensures
        applied_ok ==> r.0@ == "kept"@ && r.1 == OptDecision::Keep,
        !applied_ok ==> r.0@ == "failed"@ && r.1 == OptDecision::Inconclusive,
{
    if applied_ok {
        ("kept", OptDecision::Keep)
    } else {
        ("failed", OptDecision::Inconclusive)
    }
}

/// Manual path: always inconclusive (pending in-game evidence); an applied
/// change stays revertible, a failed one is reported as failed.
pub fn manual_decision(applied_ok: bool) -> (r: (&'static str, OptDecision))
    ensures
        applied_ok ==> r.0@ == "applied"@,
        !applied_ok ==> r.0@ == "failed"@,
        r.1 == OptDecision::Inconclusive,
{
    if applied_ok {
        ("applied", OptDecision::Inconclusive)
    } else {
        ("failed", OptDecision::Inconclusive)
    }
}

/// What measuring a profile activation records.
#[derive(Debug, Clone, Copy, PartialEq, Eq, Structural)]
pub enum MeasureOutcome {
    /// A reliable gain on the primary row (its index): success evidence.
    Success { row: usize },
    /// A reliable loss or no change: failure evidence, and the profile is
    /// reverted.
    Failure,
    /// Unreliable or unstable: nothing recorded.
    Inconclusive,
    /// A reboot is pending: the "after" benchmark waits for it.
    PendingReboot,
}

/// The outcome of a profile measurement: a pending reboot stops it before the
/// comparison; otherwise the comparison decides as for an optimization, a
/// gain being success evidence and a loss or no change failure evidence.
pub open spec fn measure_outcome_of(pending_reboot: bool, reliable: bool, rows: Seq<VerdictRow>) -> MeasureOutcome {
    if pending_reboot {
        MeasureOutcome::PendingReboot
    } else {
        match decision_of(reliable, rows) {
            OptDecision::Keep => MeasureOutcome::Success { row: primary_row(rows).unwrap() as usize },
            OptDecision::Revert => MeasureOutcome::Failure,
            OptDecision::Inconclusive => MeasureOutcome::Inconclusive,
        }
    }
}

/// The outcome of a profile measurement.
pub fn measure_outcome(pending_reboot: bool, reliable: bool, rows: &[VerdictRow]) -> (o: MeasureOutcome)
    ensures
        o == measure_outcome_of(pending_reboot, reliable, rows@),
{
    if pending_reboot {
        return MeasureOutcome::PendingReboot;
    }
    match decide(reliable, rows) {
        OptDecision::Keep => {
            let i = primary_row_index(rows);
            match i {
                Some(row) => MeasureOutcome::Success { row },
                None => MeasureOutcome::Inconclusive,
            }
        },
        OptDecision::Revert => MeasureOutcome::Failure,
        OptDecision::Inconclusive => MeasureOutcome::Inconclusive,
    }
}

/// Whether the measured profile is reverted: only on failure evidence.
pub fn reverts_profile(o: MeasureOutcome) -> (b: bool)
    ensures
        b == (o == MeasureOutcome::Failure),
{
    match o {
        MeasureOutcome::Failure => true,
        _ => false,
    }
}

/// The message of a measurement outcome; a success is announced with its gain
/// by the caller.
pub fn measure_message(o: MeasureOutcome) -> (m: Option<&'static str>)
    ensures
        o is Success <==> m is None,
        o == MeasureOutcome::Failure ==> (m matches Some(t) && t@ == "Resultado negativo — perfil revertido automaticamente."@),
        o == MeasureOutcome::Inconclusive ==> (m matches Some(t) && t@ == "Medição inconclusiva. Perfil ativo sem evidência confirmada ainda."@),
        o == MeasureOutcome::PendingReboot ==> (m matches Some(t) && t@ == "Perfil ativo. Reinicialização necessária antes de coletar evidência."@),
{
    match o {
        MeasureOutcome::Success { .. } => None,
        MeasureOutcome::Failure => Some("Resultado negativo — perfil revertido automaticamente."),
        MeasureOutcome::Inconclusive => Some("Medição inconclusiva. Perfil ativo sem evidência confirmada ainda."),
        MeasureOutcome::PendingReboot => Some("Perfil ativo. Reinicialização necessária antes de coletar evidência."),
    }
}

// ───────────────────────── Laws ─────────────────────────

/// An unreliable comparison is never kept, whatever its rows say.
pub proof fn lemma_unreliable_never_kept(rows: Seq<VerdictRow>)
    ensures
        decision_of(false, rows) == OptDecision::Inconclusive,
{
}

/// A benchmarked optimization is kept only when the primary row shows a gain.
pub proof fn lemma_keep_needs_primary_gain(reliable: bool, rows: Seq<VerdictRow>)
    requires
        decision_of(reliable, rows) == OptDecision::Keep,
    ensures
        reliable,
        primary_row(rows) matches Some(i) && 0 <= i < rows.len() && rows[i].verdict
            == PerfVerdict::Gain,
{
    if exists|i: int| is_first_primary(rows, i) {
        let c = choose|i: int| is_first_primary(rows, i);
        assert(is_first_primary(rows, c));
    }
}

/// When a `cpu_multi` row exists, the primary row is the first of them, so
/// rows on other metrics cannot override it.
pub proof fn lemma_primary_prefers_cpu_multi(rows: Seq<VerdictRow>, i: int)
    requires
        is_first_primary(rows, i),
    ensures
        primary_row(rows) == Some(i),
{
    let c = choose|c: int| is_first_primary(rows, c);
    lemma_first_primary_unique(rows, c, i);
}


/// A profile is reverted after measuring only on reliable evidence of a loss
/// or of no change on its primary row, never while a reboot is pending.
pub proof fn lemma_revert_needs_reliable_loss(pending_reboot: bool, reliable: bool, rows: Seq<VerdictRow>)
    requires
        measure_outcome_of(pending_reboot, reliable, rows) == MeasureOutcome::Failure,
    ensures
        !pending_reboot,
        reliable,
        primary_row(rows) matches Some(i) && 0 <= i < rows.len() && (rows[i].verdict == PerfVerdict::Loss
            || rows[i].verdict == PerfVerdict::NoChange),
{
    if exists|i: int| is_first_primary(rows, i) {
        let c = choose|i: int| is_first_primary(rows, i);
        assert(is_first_primary(rows, c));
    }
}

/// The row whose gain a comparison offers as evidence: the primary row of a
/// reliable comparison when its verdict is a gain.
pub open spec fn gain_row_of(reliable: bool, rows: Seq<VerdictRow>) -> Option<int> {
    if !reliable {
        None
    } else {
        match primary_row(rows) {
            Some(i) => if rows[i].verdict == PerfVerdict::Gain {
                Some(i)
            } else {
                None
            },
            None => None,
        }
    }
}

/// The row whose gain a comparison offers as evidence, if any.
pub fn gain_row(reliable: bool, rows: &[VerdictRow]) -> (r: Option<usize>)
    ensures
        match r {
            Some(i) => gain_row_of(reliable, rows@) == Some(i as int) && i < rows@.len(),
            None => gain_row_of(reliable, rows@) is None,
        },
{
    if !reliable {
        return None;
    }
    match primary_row_index(rows) {
        Some(i) => {
            proof {
                lemma_primary_row_in_range(rows@);
            }
            match rows[i].verdict {
                PerfVerdict::Gain => Some(i),
                _ => None,
            }
        },
        None => None,
    }
}

/// The primary row, when there is one, is a row.
proof fn lemma_primary_row_in_range(rows: Seq<VerdictRow>)
    ensures
        primary_row(rows) matches Some(i) ==> 0 <= i < rows.len(),
{
    if exists|i: int| is_first_primary(rows, i) {
        let c = choose|i: int| is_first_primary(rows, i);
        assert(is_first_primary(rows, c));
    }
}

/// The evidence a finished optimization run records: the gain row of its
/// comparison when the run was kept and a reliable comparison exists
/// (`reliable` is `None` without a comparison); nothing otherwise. The run
/// records at most this one gain.
pub fn evidence_row(decision: OptDecision, reliable: Option<bool>, rows: &[VerdictRow]) -> (r: Option<usize>)
    ensures
        decision == OptDecision::Keep && reliable == Some(true) ==> match r {
            Some(i) => gain_row_of(true, rows@) == Some(i as int) && i < rows@.len(),
            None => gain_row_of(true, rows@) is None,
        },
        !(decision == OptDecision::Keep && reliable == Some(true)) ==> r is None,
{
    match (decision, reliable) {
        (OptDecision::Keep, Some(true)) => gain_row(true, rows),
        _ => None,
    }
}

/// A run kept on the decision of a reliable comparison always has a gain row
/// to record, and a run with a gain row to record was kept: evidence is
/// recorded exactly when the decision is Keep.
pub proof fn lemma_kept_exactly_when_gain_recorded(rows: Seq<VerdictRow>)
    ensures
        (decision_of(true, rows) == OptDecision::Keep) <==> gain_row_of(true, rows) is Some,
{
}

/// Whether row `i` is the row a comparison is judged on: the first
/// `cpu_multi` row, or the first row when no row is `cpu_multi`.
pub open spec fn judged_row(rows: Seq<VerdictRow>, i: int) -> bool {
    &&& 0 <= i < rows.len()
    &&& (rows[i].metric@ == "cpu_multi"@ && forall|k: int| 0 <= k < i ==> (#[trigger] rows[k]).metric@ != "cpu_multi"@)
        || (i == 0 && forall|k: int| 0 <= k < rows.len() ==> (#[trigger] rows[k]).metric@ != "cpu_multi"@)
}

/// A reliable comparison is decided by the verdict of its judged row alone,
/// whatever that row's metric: a gain keeps the optimization, a loss or no
/// change reverts it, an unstable reading is inconclusive. A measured
/// profile (no reboot pending) then records success on that row, or failure
/// and is reverted, or records nothing. An unreliable comparison, or one
/// without rows, is inconclusive.
pub proof fn lemma_decided_by_judged_row(rows: Seq<VerdictRow>, i: int)
    requires
        judged_row(rows, i),
    ensures
        rows[i].verdict == PerfVerdict::Gain ==> decide_result_is(true, rows, OptDecision::Keep)
            && measure_outcome_of(false, true, rows) == (MeasureOutcome::Success { row: i as usize }),
        (rows[i].verdict == PerfVerdict::Loss || rows[i].verdict == PerfVerdict::NoChange) ==> decide_result_is(
            true,
            rows,
            OptDecision::Revert,
        ) && measure_outcome_of(false, true, rows) == MeasureOutcome::Failure,
        rows[i].verdict == PerfVerdict::Unstable ==> decide_result_is(true, rows, OptDecision::Inconclusive)
            && measure_outcome_of(false, true, rows) == MeasureOutcome::Inconclusive,
        decide_result_is(false, rows, OptDecision::Inconclusive),
{
    if rows[i].metric@ == "cpu_multi"@ && forall|k: int| 0 <= k < i ==> (#[trigger] rows[k]).metric@ != "cpu_multi"@ {
        assert(is_first_primary(rows, i));
        lemma_primary_prefers_cpu_multi(rows, i);
    } else {
        assert(i == 0);
        assert(!exists|j: int| is_first_primary(rows, j)) by {
            if exists|j: int| is_first_primary(rows, j) {
                let j = choose|j: int| is_first_primary(rows, j);
                assert(rows[j].metric@ != "cpu_multi"@);
            }
        }
    }
}

/// Without rows there is nothing to judge: inconclusive.
pub proof fn lemma_no_rows_inconclusive(reliable: bool)
    ensures
        decide_result_is(reliable, Seq::<VerdictRow>::empty(), OptDecision::Inconclusive),
{
    assert(!exists|j: int| is_first_primary(Seq::<VerdictRow>::empty(), j));
}

/// Whether `decide` answers `d` on this comparison.
pub open spec fn decide_result_is(reliable: bool, rows: Seq<VerdictRow>, d: OptDecision) -> bool {
    decision_of(reliable, rows) == d
}

} // verus!
