//! Evidence accumulated per machine: how many runs of an optimization or a
//! profile there were, how many succeeded, and the confidence earned. The
//! average gain, a floating-point mean, is kept by the caller.
use vstd::prelude::*;

verus! {

/// Confidence (0–95) earned by a number of successful executions.
pub open spec fn spec_confidence_for_executions(n: u32) -> u8 {
    if n == 0 {
        0
    } else if n <= 2 {
        25
    } else if n <= 4 {
        50
    } else if n <= 9 {
        75
    } else {
        95
    }
}

/// Confidence from the number of executions (placeholder for the full
/// evidence engine): 0 → 0%, 1–2 → 25%, 3–4 → 50%, 5–9 → 75%, 10+ → 95%.
pub fn confidence_for_executions(n: u32) -> (c: u8)
    ensures
        c == spec_confidence_for_executions(n),
{
    if n == 0 {
        0
    } else if n <= 2 {
        25
    } else if n <= 4 {
        50
    } else if n <= 9 {
        75
    } else {
        95
    }
}

/// More executions never lower the confidence, which never exceeds 95%.
pub proof fn lemma_confidence_monotone(a: u32, b: u32)
    requires
        a <= b,
    ensures
        spec_confidence_for_executions(a) <= spec_confidence_for_executions(b),
        spec_confidence_for_executions(b) <= 95,
{
}


/// The counters of an evidence record.
#[derive(Debug, Clone, Copy, PartialEq, Eq, Structural)]
pub struct EvidenceCounts {
    pub executions: u32,
    pub successful_executions: u32,
    pub confidence: u8,
}

/// Whether a record is consistent: no more successes than runs.
pub open spec fn counts_ok(c: EvidenceCounts) -> bool {
    c.successful_executions <= c.executions
}

/// Whether `c` counts `runs` runs, `wins` successes and confidence `conf`.
pub open spec fn counts_are(c: EvidenceCounts, runs: int, wins: int, conf: u8) -> bool {
    c.executions == runs && c.successful_executions == wins && c.confidence == conf
}

/// How a configuration record follows from the previous one after a run kept
/// with a reliable gain.
pub open spec fn config_recorded(prev: Option<EvidenceCounts>, c: EvidenceCounts) -> bool {
    match prev {
        None => counts_are(c, 1, 1, spec_confidence_for_executions(1)),
        Some(p) => counts_are(
            c,
            p.executions + 1,
            p.successful_executions + 1,
            spec_confidence_for_executions((p.executions + 1) as u32),
        ),
    }
}

/// How a profile record follows from the previous one after an activation
/// with (`win`) or without a reliable gain.
pub open spec fn profile_recorded(prev: Option<EvidenceCounts>, win: bool, c: EvidenceCounts) -> bool {
    match prev {
        None => if win {
            counts_are(c, 1, 1, spec_confidence_for_executions(1))
        } else {
            counts_are(c, 1, 0, 0)
        },
        Some(p) => if win {
            counts_are(
                c,
                p.executions + 1,
                p.successful_executions + 1,
                spec_confidence_for_executions((p.successful_executions + 1) as u32),
            )
        } else {
            counts_are(c, p.executions + 1, p.successful_executions as int, p.confidence)
        },
    }
}

/// The number of wins in a history of outcomes.
pub open spec fn count_wins(wins: Seq<bool>) -> nat
    decreases wins.len(),
{
    if wins.len() == 0 {
        0
    } else {
        count_wins(wins.drop_last()) + if wins.last() { 1nat } else { 0nat }
    }
}

/// A configuration run kept with a reliable gain: one more run and one more
/// success; the confidence follows the number of runs.
pub fn config_success(prev: Option<EvidenceCounts>) -> (c: EvidenceCounts)
    requires
        (prev matches Some(p) ==> p.executions < u32::MAX && p.successful_executions < u32::MAX),
    ensures
        prev is None ==> counts_are(c, 1, 1, spec_confidence_for_executions(1)),
        (prev matches Some(p) ==> counts_are(c, p.executions + 1, p.successful_executions + 1, spec_confidence_for_executions((p.executions + 1) as u32))),
        config_recorded(prev, c),
{
    match prev {
        None => EvidenceCounts { executions: 1, successful_executions: 1, confidence: confidence_for_executions(1) },
        Some(p) => {
            let n = p.executions + 1;
            EvidenceCounts { executions: n, successful_executions: p.successful_executions + 1, confidence: confidence_for_executions(n) }
        },
    }
}

/// A profile activation with a reliable gain: one more run and one more
/// success; the confidence follows the number of successes.
pub fn profile_success(prev: Option<EvidenceCounts>) -> (c: EvidenceCounts)
    requires
        (prev matches Some(p) ==> p.executions < u32::MAX && p.successful_executions < u32::MAX),
    ensures
        prev is None ==> counts_are(c, 1, 1, spec_confidence_for_executions(1)),
        (prev matches Some(p) ==> counts_are(c, p.executions + 1, p.successful_executions + 1, spec_confidence_for_executions((p.successful_executions + 1) as u32))),
        profile_recorded(prev, true, c),
{
    match prev {
        None => EvidenceCounts { executions: 1, successful_executions: 1, confidence: confidence_for_executions(1) },
        Some(p) => {
            let n = p.successful_executions + 1;
            EvidenceCounts { executions: p.executions + 1, successful_executions: n, confidence: confidence_for_executions(n) }
        },
    }
}

/// A profile activation without gain: one more run only; a first record
/// starts with no success and no confidence.
pub fn profile_failure(prev: Option<EvidenceCounts>) -> (c: EvidenceCounts)
    requires
        (prev matches Some(p) ==> p.executions < u32::MAX),
    ensures
        prev is None ==> counts_are(c, 1, 0, 0),
        (prev matches Some(p) ==> counts_are(c, p.executions + 1, p.successful_executions as int, p.confidence)),
        profile_recorded(prev, false, c),
{
    match prev {
        None => EvidenceCounts { executions: 1, successful_executions: 0, confidence: 0 },
        Some(p) => EvidenceCounts { executions: p.executions + 1, successful_executions: p.successful_executions, confidence: p.confidence },
    }
}

/// Recording keeps a profile record consistent: successes never outnumber
/// runs, a success never lowers the confidence, a failure leaves it as it
/// was.
pub proof fn lemma_recording_keeps_counts(p: EvidenceCounts, s: EvidenceCounts, f: EvidenceCounts)
    requires
        counts_ok(p),
        p.executions < u32::MAX,
        p.confidence == spec_confidence_for_executions(p.successful_executions),
        counts_are(s, p.executions + 1, p.successful_executions + 1, spec_confidence_for_executions((p.successful_executions + 1) as u32)),
        counts_are(f, p.executions + 1, p.successful_executions as int, p.confidence),
    ensures
        counts_ok(s),
        counts_ok(f),
        p.confidence <= s.confidence,
        f.confidence == p.confidence,
{
    lemma_confidence_monotone(p.successful_executions, (p.successful_executions + 1) as u32);
}

/// After `n` configuration runs kept with a gain, recorded one after the
/// other from no record, the record counts `n` runs and `n` successes, and
/// its confidence is the one earned by `n` executions.
pub proof fn lemma_config_history(cs: Seq<EvidenceCounts>)
    requires
        1 <= cs.len() < u32::MAX,
        config_recorded(None, cs[0]),
        forall|k: int| 0 <= k < cs.len() - 1 ==> config_recorded(Some(cs[k]), #[trigger] cs[k + 1]),
    ensures
        counts_are(cs.last(), cs.len() as int, cs.len() as int, spec_confidence_for_executions(cs.len() as u32)),
    decreases cs.len(),
{
    if cs.len() > 1 {
        let pre = cs.drop_last();
        assert forall|k: int| 0 <= k < pre.len() - 1 implies config_recorded(Some(pre[k]), #[trigger] pre[k + 1]) by {
            assert(config_recorded(Some(cs[k]), cs[k + 1]));
        }
        lemma_config_history(pre);
        let k: int = cs.len() - 2;
        assert(config_recorded(Some(cs[k]), cs[k + 1]));
        assert(cs[k + 1] == cs.last());
        assert(pre.last() == cs[k]);
    }
}

/// After a history of profile activations recorded one after the other from
/// no record, each with (`true`) or without a gain, the record counts every
/// activation as a run, the wins as successes, and its confidence is the one
/// earned by the number of wins: failures never change the confidence.
pub proof fn lemma_profile_history(wins: Seq<bool>, cs: Seq<EvidenceCounts>)
    requires
        1 <= cs.len() < u32::MAX,
        wins.len() == cs.len(),
        profile_recorded(None, wins[0], cs[0]),
        forall|k: int| 0 <= k < cs.len() - 1 ==> profile_recorded(Some(cs[k]), wins[k + 1], #[trigger] cs[k + 1]),
    ensures
        counts_are(
            cs.last(),
            cs.len() as int,
            count_wins(wins) as int,
            spec_confidence_for_executions(count_wins(wins) as u32),
        ),
        count_wins(wins) <= cs.len(),
    decreases cs.len(),
{
    if cs.len() == 1 {
        assert(wins.drop_last() =~= Seq::<bool>::empty());
        assert(count_wins(wins.drop_last()) == 0);
        assert(wins.last() == wins[0]);
        assert(cs.last() == cs[0]);
    } else {
        let pre = cs.drop_last();
        let pw = wins.drop_last();
        assert forall|k: int| 0 <= k < pre.len() - 1 implies profile_recorded(Some(pre[k]), pw[k + 1], #[trigger] pre[k + 1]) by {
            assert(profile_recorded(Some(cs[k]), wins[k + 1], cs[k + 1]));
        }
        lemma_profile_history(pw, pre);
        let k: int = cs.len() - 2;
        assert(profile_recorded(Some(cs[k]), wins[k + 1], cs[k + 1]));
        assert(cs[k + 1] == cs.last());
        assert(pre.last() == cs[k]);
        assert(wins.last() == wins[k + 1]);
        assert(count_wins(wins) == count_wins(pw) + if wins.last() { 1nat } else { 0nat });
    }
}

} // verus!
