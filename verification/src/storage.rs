//! Persistence records and the helpers around them: timestamps, retention
//! policy, and the mapping between stored keys and contract enums.

use vstd::prelude::*;

use crate::contracts::{classification_key, severity_key, Classification, Severity};
use crate::text::str_eq;

verus! {

/// Instants of the system clock.
#[verifier::external_type_specification]
#[verifier::external_body]
pub struct ExSystemTime(std::time::SystemTime);

/// Error of a clock reading before the Unix epoch.
#[verifier::external_type_specification]
#[verifier::external_body]
pub struct ExSystemTimeError(std::time::SystemTimeError);

/// Reads the system clock (`SystemTime::now`). Nothing is promised of the
/// value: it is the time of the call.
#[verifier::external_body]
fn clock_now() -> (t: std::time::SystemTime) {
    std::time::SystemTime::now()
}

/// Time elapsed since the Unix epoch (`SystemTime::duration_since`); an error
/// when the clock reads before the epoch. Nothing is promised of the value.
#[verifier::external_body]
fn since_epoch(t: &std::time::SystemTime) -> (r: Result<core::time::Duration, std::time::SystemTimeError>) {
    t.duration_since(std::time::UNIX_EPOCH)
}

/// Whole milliseconds of a duration (`Duration::as_millis`).
#[verifier::external_body]
fn whole_millis(d: &core::time::Duration) -> (ms: u128) {
    d.as_millis()
}

/// Current Unix time in milliseconds (UTC); 0 when the clock reads before the
/// epoch. The millisecond count is truncated to 64 bits.
pub fn now_ms() -> (r: i64) {
    let t = clock_now();
    match since_epoch(&t) {
        Ok(d) => {
            let ms = whole_millis(&d);
            #[verifier::truncate]
            (ms as i64)
        },
        Err(_) => 0,
    }
}

/// Milliseconds in one day.
pub const DAY_MS: i64 = 86_400_000;

/// Retention policy of the database.
#[derive(Debug, Clone, Copy, PartialEq, Eq, Structural)]
pub struct RetentionPolicy {
    /// Granular telemetry (metric samples): short window.
    pub metrics_days: i64,
    /// Audit trail.
    pub audit_days: i64,
    /// Analysis runs (and, by cascade, their findings and scores).
    pub analysis_days: i64,
    /// Most recent snapshots kept; active snapshots are never deleted.
    pub max_snapshots: i64,
}

impl Default for RetentionPolicy {
    fn default() -> (p: Self)
        ensures
            p == (RetentionPolicy {
                metrics_days: 7,
                audit_days: 90,
                analysis_days: 90,
                max_snapshots: 50,
            }),
    {
        RetentionPolicy { metrics_days: 7, audit_days: 90, analysis_days: 90, max_snapshots: 50 }
    }
}

/// Timestamp before which rows older than `days` days are deleted.
pub open spec fn cutoff(now: int, days: int) -> int {
    now - days * DAY_MS
}

/// Whether the cutoff of a window of `days` days at `now` is computed
/// without leaving the 64-bit range.
pub open spec fn cutoff_fits(now: int, days: int) -> bool {
    i64::MIN <= days * DAY_MS <= i64::MAX && i64::MIN <= cutoff(now, days) <= i64::MAX
}

/// The deletion cutoffs of a policy at time `now`: metric samples, audit log
/// and analysis runs older than their windows.
pub fn retention_cutoffs(now: i64, policy: &RetentionPolicy) -> (r: (i64, i64, i64))
    requires
        cutoff_fits(now as int, policy.metrics_days as int),
        cutoff_fits(now as int, policy.audit_days as int),
        cutoff_fits(now as int, policy.analysis_days as int),
    ensures
        r.0 == cutoff(now as int, policy.metrics_days as int),
        r.1 == cutoff(now as int, policy.audit_days as int),
        r.2 == cutoff(now as int, policy.analysis_days as int),
{
    let m = policy.metrics_days * DAY_MS;
    let a = policy.audit_days * DAY_MS;
    let r = policy.analysis_days * DAY_MS;
    (now - m, now - a, now - r)
}

/// Rows removed by one housekeeping pass.
#[derive(Debug, Clone, Copy, PartialEq, Eq, Structural)]
pub struct HousekeepingReport {
    pub metrics_deleted: u64,
    pub audit_deleted: u64,
    pub analysis_runs_deleted: u64,
    pub snapshots_deleted: u64,
}

impl Default for HousekeepingReport {
    fn default() -> (r: Self)
        ensures
            r == (HousekeepingReport {
                metrics_deleted: 0,
                audit_deleted: 0,
                analysis_runs_deleted: 0,
                snapshots_deleted: 0,
            }),
    {
        HousekeepingReport {
            metrics_deleted: 0,
            audit_deleted: 0,
            analysis_runs_deleted: 0,
            snapshots_deleted: 0,
        }
    }
}

/// One item of the hardware inventory.
#[derive(Debug, Clone)]
pub struct InventoryItem {
    pub category: String,
    pub name: String,
    pub details_json: String,
}

/// A stored snapshot.
#[derive(Debug, Clone)]
pub struct SnapshotRow {
    pub id: i64,
    pub ts: i64,
    pub reason: String,
    pub integrity_hash: String,
    pub status: String,
}

/// One entry of a snapshot: the target and its old and new values as JSON.
#[derive(Debug, Clone)]
pub struct SnapshotEntryRow {
    pub target_type: String,
    pub target_key: String,
    pub old_value_json: Option<String>,
    pub new_value_json: Option<String>,
}

/// The classification stored under a key; unknown keys read as Critico.
pub open spec fn classification_from_key(s: Seq<char>) -> Classification {
    if s == classification_key(Classification::Critico) {
        Classification::Critico
    } else if s == classification_key(Classification::Regular) {
        Classification::Regular
    } else if s == classification_key(Classification::Bom) {
        Classification::Bom
    } else if s == classification_key(Classification::Excelente) {
        Classification::Excelente
    } else if s == classification_key(Classification::Elite) {
        Classification::Elite
    } else {
        Classification::Critico
    }
}

/// Reads a stored classification key; unknown keys read as Critico.
pub fn parse_classification(s: &str) -> (c: Classification)
    ensures
        c == classification_from_key(s@),
{
    if str_eq(s, "critico") {
        Classification::Critico
    } else if str_eq(s, "regular") {
        Classification::Regular
    } else if str_eq(s, "bom") {
        Classification::Bom
    } else if str_eq(s, "excelente") {
        Classification::Excelente
    } else if str_eq(s, "elite") {
        Classification::Elite
    } else {
        Classification::Critico
    }
}

/// The severity stored under a key; unknown keys read as Info.
pub open spec fn severity_from_key(s: Seq<char>) -> Severity {
    if s == severity_key(Severity::Info) {
        Severity::Info
    } else if s == severity_key(Severity::Low) {
        Severity::Low
    } else if s == severity_key(Severity::Medium) {
        Severity::Medium
    } else if s == severity_key(Severity::High) {
        Severity::High
    } else if s == severity_key(Severity::Critical) {
        Severity::Critical
    } else {
        Severity::Info
    }
}

/// Reads a stored severity key; unknown keys read as Info.
pub fn severity_from_str(s: &str) -> (v: Severity)
    ensures
        v == severity_from_key(s@),
{
    if str_eq(s, "info") {
        Severity::Info
    } else if str_eq(s, "low") {
        Severity::Low
    } else if str_eq(s, "medium") {
        Severity::Medium
    } else if str_eq(s, "high") {
        Severity::High
    } else if str_eq(s, "critical") {
        Severity::Critical
    } else {
        Severity::Info
    }
}

// ───────────────────────── Laws ─────────────────────────

/// Reading back the stored key of a classification gives the classification.
pub proof fn lemma_classification_round_trip(c: Classification)
    ensures
        classification_from_key(classification_key(c)) == c,
{
    crate::analyzer::lemma_classification_keys_distinct(Classification::Critico, c);
    crate::analyzer::lemma_classification_keys_distinct(Classification::Regular, c);
    crate::analyzer::lemma_classification_keys_distinct(Classification::Bom, c);
    crate::analyzer::lemma_classification_keys_distinct(Classification::Excelente, c);
    crate::analyzer::lemma_classification_keys_distinct(Classification::Elite, c);
}

/// Reading back the stored key of a severity gives the severity.
pub proof fn lemma_severity_round_trip(s: Severity)
    ensures
        severity_from_key(severity_key(s)) == s,
{
    reveal_strlit("info");
    reveal_strlit("low");
    reveal_strlit("medium");
    reveal_strlit("high");
    reveal_strlit("critical");
    crate::text::lemma_heads_differ("info"@, "low"@);
    crate::text::lemma_heads_differ("info"@, "medium"@);
    crate::text::lemma_heads_differ("info"@, "high"@);
    crate::text::lemma_heads_differ("info"@, "critical"@);
    crate::text::lemma_heads_differ("low"@, "medium"@);
    crate::text::lemma_heads_differ("low"@, "high"@);
    crate::text::lemma_heads_differ("low"@, "critical"@);
    crate::text::lemma_heads_differ("medium"@, "high"@);
    crate::text::lemma_heads_differ("medium"@, "critical"@);
    crate::text::lemma_heads_differ("high"@, "critical"@);
}

} // verus!
