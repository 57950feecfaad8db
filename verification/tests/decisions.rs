use tkspeed::contracts::{OptDecision, PerfVerdict};
use tkspeed::decisions::{evidence_row, gain_row, 
    benchmark_outcome, decide, manual_decision, primary_row_index, space_freed_decision, VerdictRow,
};

fn row(metric: &str, verdict: PerfVerdict) -> VerdictRow {
    VerdictRow { metric: metric.into(), verdict }
}

#[test]
fn gain_keeps() {
    assert_eq!(decide(true, &[row("cpu_multi", PerfVerdict::Gain)]), OptDecision::Keep);
}

#[test]
fn loss_reverts() {
    assert_eq!(decide(true, &[row("cpu_multi", PerfVerdict::Loss)]), OptDecision::Revert);
}

#[test]
fn no_change_reverts() {
    assert_eq!(decide(true, &[row("cpu_multi", PerfVerdict::NoChange)]), OptDecision::Revert);
}

#[test]
fn unstable_is_inconclusive() {
    assert_eq!(decide(true, &[row("cpu_multi", PerfVerdict::Unstable)]), OptDecision::Inconclusive);
}

#[test]
fn unreliable_is_inconclusive_even_with_gain() {
    assert_eq!(decide(false, &[row("cpu_multi", PerfVerdict::Gain)]), OptDecision::Inconclusive);
}

#[test]
fn prefers_cpu_multi_as_primary_metric() {
    let rows = [row("cpu_single", PerfVerdict::Loss), row("cpu_multi", PerfVerdict::Gain)];
    assert_eq!(decide(true, &rows), OptDecision::Keep);
}

#[test]
fn empty_rows_is_inconclusive() {
    assert_eq!(decide(true, &[]), OptDecision::Inconclusive);
}

#[test]
fn keep_does_not_rollback() {
    assert_eq!(benchmark_outcome(OptDecision::Keep), ("kept", false));
}

#[test]
fn revert_decision_rolls_back() {
    assert_eq!(benchmark_outcome(OptDecision::Revert), ("reverted", true));
}

#[test]
fn inconclusive_decision_rolls_back() {
    assert_eq!(benchmark_outcome(OptDecision::Inconclusive), ("inconclusive", true));
}

#[test]
fn space_freed_ok_keeps() {
    assert_eq!(space_freed_decision(true), ("kept", OptDecision::Keep));
}

#[test]
fn space_freed_err_is_inconclusive() {
    assert_eq!(space_freed_decision(false), ("failed", OptDecision::Inconclusive));
}

#[test]
fn manual_applied_is_inconclusive() {
    assert_eq!(manual_decision(true), ("applied", OptDecision::Inconclusive));
}

#[test]
fn manual_failed_is_inconclusive() {
    assert_eq!(manual_decision(false), ("failed", OptDecision::Inconclusive));
}

#[test]
fn primary_row_falls_back_to_first_row() {
    assert_eq!(primary_row_index(&[row("fps", PerfVerdict::Gain)]), Some(0));
    assert_eq!(primary_row_index(&[]), None);
    let rows = [row("fps", PerfVerdict::Loss), row("cpu_multi", PerfVerdict::Gain), row("cpu_multi", PerfVerdict::Loss)];
    assert_eq!(primary_row_index(&rows), Some(1));
    assert_eq!(decide(true, &[row("fps", PerfVerdict::Gain)]), OptDecision::Keep);
}

#[test]
fn evidence_recorded_only_for_kept_reliable_gain() {
    let rows = [row("fps_avg", PerfVerdict::Loss), row("cpu_multi", PerfVerdict::Gain)];
    assert_eq!(gain_row(true, &rows), Some(1));
    assert_eq!(gain_row(false, &rows), None);
    assert_eq!(evidence_row(OptDecision::Keep, Some(true), &rows), Some(1));
    assert_eq!(evidence_row(OptDecision::Revert, Some(true), &rows), None);
    assert_eq!(evidence_row(OptDecision::Keep, Some(false), &rows), None);
    assert_eq!(evidence_row(OptDecision::Keep, None, &rows), None);
    let first = [row("ram", PerfVerdict::Gain), row("io", PerfVerdict::Loss)];
    assert_eq!(evidence_row(OptDecision::Keep, Some(true), &first), Some(0));
    let loss = [row("cpu_multi", PerfVerdict::Loss)];
    assert_eq!(evidence_row(OptDecision::Keep, Some(true), &loss), None);
    assert_eq!(evidence_row(OptDecision::Keep, Some(true), &[]), None);
}
