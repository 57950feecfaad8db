//! Shared data contracts between the engine and the user interface.

use vstd::prelude::*;

verus! {

// ───────────────────────── Telemetry ─────────────────────────

/// Source of a telemetry metric.
#[derive(Debug, Clone, Copy, PartialEq, Eq, Structural)]
pub enum MetricSource {
    Cpu,
    Gpu,
    Ram,
    Ssd,
    Hdd,
    Net,
    Temp,
    Fps,
}

/// Stable persistence key of a metric source.
pub open spec fn metric_source_key(s: MetricSource) -> Seq<char> {
    match s {
        MetricSource::Cpu => "cpu"@,
        MetricSource::Gpu => "gpu"@,
        MetricSource::Ram => "ram"@,
        MetricSource::Ssd => "ssd"@,
        MetricSource::Hdd => "hdd"@,
        MetricSource::Net => "net"@,
        MetricSource::Temp => "temp"@,
        MetricSource::Fps => "fps"@,
    }
}

impl MetricSource {
    /// Stable key used in persistence (`source` column).
    pub fn as_str(&self) -> (r: &'static str)
        ensures
            r@ == metric_source_key(*self),
    {
        match self {
            MetricSource::Cpu => "cpu",
            MetricSource::Gpu => "gpu",
            MetricSource::Ram => "ram",
            MetricSource::Ssd => "ssd",
            MetricSource::Hdd => "hdd",
            MetricSource::Net => "net",
            MetricSource::Temp => "temp",
            MetricSource::Fps => "fps",
        }
    }
}

// ───────────────────────── Diagnosis ─────────────────────────

/// Severity of a finding.
#[derive(Debug, Clone, Copy, PartialEq, Eq, Structural)]
pub enum Severity {
    Info,
    Low,
    Medium,
    High,
    Critical,
}

/// Stable persistence key of a severity.
pub open spec fn severity_key(s: Severity) -> Seq<char> {
    match s {
        Severity::Info => "info"@,
        Severity::Low => "low"@,
        Severity::Medium => "medium"@,
        Severity::High => "high"@,
        Severity::Critical => "critical"@,
    }
}

impl Severity {
    pub fn as_str(&self) -> (r: &'static str)
        ensures
            r@ == severity_key(*self),
    {
        match self {
            Severity::Info => "info",
            Severity::Low => "low",
            Severity::Medium => "medium",
            Severity::High => "high",
            Severity::Critical => "critical",
        }
    }
}

/// A detected problem, with its impact and the suggested solution.
#[derive(Debug, Clone)]
pub struct Finding {
    pub kind: String,
    pub severity: Severity,
    pub title: String,
    pub impact: String,
    pub solution: String,
}

/// Per-category subscores.
#[derive(Debug, Clone, Copy, PartialEq, Eq, Structural)]
pub struct ScoreBreakdown {
    pub cpu: u16,
    pub gpu: u16,
    pub ram: u16,
    pub storage: u16,
    pub windows: u16,
    pub network: u16,
    pub temperature: u16,
    pub games: u16,
    pub stability: u16,
}

/// Classification band of a total score.
#[derive(Debug, Clone, Copy, PartialEq, Eq, Structural)]
pub enum Classification {
    Critico,
    Regular,
    Bom,
    Excelente,
    Elite,
}

/// Stable persistence key of a classification.
pub open spec fn classification_key(c: Classification) -> Seq<char> {
    match c {
        Classification::Critico => "critico"@,
        Classification::Regular => "regular"@,
        Classification::Bom => "bom"@,
        Classification::Excelente => "excelente"@,
        Classification::Elite => "elite"@,
    }
}

impl Classification {
    pub fn as_str(&self) -> (r: &'static str)
        ensures
            r@ == classification_key(*self),
    {
        match self {
            Classification::Critico => "critico",
            Classification::Regular => "regular",
            Classification::Bom => "bom",
            Classification::Excelente => "excelente",
            Classification::Elite => "elite",
        }
    }
}

/// The TkSpeed score (0–1000), its band and its breakdown.
#[derive(Debug, Clone)]
pub struct TkSpeedScore {
    pub total: u16,
    pub classification: Classification,
    pub breakdown: ScoreBreakdown,
    pub score_version: String,
}

/// Findings and score of one analysis run.
#[derive(Debug, Clone)]
pub struct Diagnosis {
    pub run_id: i64,
    pub findings: Vec<Finding>,
    pub score: TkSpeedScore,
}

/// One entry of the score history.
#[derive(Debug, Clone, Copy, PartialEq, Eq, Structural)]
pub struct ScoreHistoryItem {
    pub ts: i64,
    pub total: u16,
    pub classification: Classification,
}

// ───────────────────────── Protection ─────────────────────────

/// Summary of a snapshot.
#[derive(Debug, Clone)]
pub struct SnapshotInfo {
    pub id: i64,
    pub ts: i64,
    pub reason: String,
    pub status: String,
    pub changes: u32,
    pub target: String,
}

/// Protection state shown on the dashboard.
#[derive(Debug, Clone)]
pub struct ProtectionState {
    pub status: String,
    pub total: u32,
    pub last_snapshot: Option<SnapshotInfo>,
    pub last_rollback_ts: Option<i64>,
}

/// Result of a rollback.
#[derive(Debug, Clone)]
pub struct RollbackOutcome {
    pub snapshot_id: i64,
    pub restored: u32,
    pub ok: bool,
    pub message: String,
}

/// One step of a protection self-test.
#[derive(Debug, Clone)]
pub struct SelfTestStep {
    pub name: String,
    pub detail: String,
    pub ok: bool,
}

/// Step-by-step report of a protection self-test.
#[derive(Debug, Clone)]
pub struct SelfTestReport {
    pub steps: Vec<SelfTestStep>,
    pub passed: bool,
}

// ───────────────────────── Performance Lab ─────────────────────────

/// Verdict of one metric in a before/after comparison.
#[derive(Debug, Clone, Copy, PartialEq, Eq, Structural)]
pub enum PerfVerdict {
    Gain,
    Loss,
    NoChange,
    Unstable,
}

/// Kind of bottleneck found in a sampling window.
#[derive(Debug, Clone, Copy, PartialEq, Eq, Structural)]
pub enum BottleneckKind {
    Cpu,
    Gpu,
    Ram,
    Storage,
    Thermal,
    Balanced,
    Inconclusive,
}

// ───────────────────────── Optimization ─────────────────────────

/// Public metadata of one optimization of the catalog.
#[derive(Debug, Clone)]
pub struct OptimizationInfo {
    pub id: String,
    pub name: String,
    pub description: String,
    pub category: String,
    pub risk: String,
    pub expected_impact: String,
    pub requires_elevation: bool,
    pub requires_reboot: bool,
}

/// Decision of the pipeline after comparing with evidence.
#[derive(Debug, Clone, Copy, PartialEq, Eq, Structural)]
pub enum OptDecision {
    Keep,
    Revert,
    Inconclusive,
}

/// One startup entry (read-only startup analysis).
#[derive(Debug, Clone)]
pub struct StartupItem {
    pub name: String,
    pub command: String,
    pub location: String,
}

/// Risk level of a plan item.
#[derive(Debug, Clone, Copy, PartialEq, Eq, Structural)]
pub enum RiskLevel {
    Safe,
    Moderate,
    Advanced,
}

/// One item of an optimization plan.
#[derive(Debug, Clone)]
pub struct PlanItem {
    pub tweak_id: String,
    pub label: String,
    pub risk_level: RiskLevel,
    pub requires_elevation: bool,
}

/// An optimization plan.
#[derive(Debug, Clone)]
pub struct Plan {
    pub reason: String,
    pub items: Vec<PlanItem>,
}

/// Final status of a plan.
#[derive(Debug, Clone, Copy, PartialEq, Eq, Structural)]
pub enum PlanStatus {
    Committed,
    Compensated,
    Failed,
}

/// Result of executing a plan.
#[derive(Debug, Clone)]
pub struct PlanResult {
    pub status: PlanStatus,
    pub snapshot_id: i64,
    pub applied: Vec<String>,
}

// ───────────────────────── Permissions ─────────────────────────

/// Error of a privilege request.
#[derive(Debug, Clone, Copy, PartialEq, Eq, Structural)]
pub enum PermissionError {
    /// The user denied elevation.
    Denied,
}

/// Grants privileges, elevating only when strictly needed. No operation of
/// this version needs elevation (rollback works on HKCU), so every request is
/// granted.
#[derive(Debug, Clone, Copy, PartialEq, Eq, Structural)]
pub struct PermissionBroker;

impl PermissionBroker {
    pub fn ensure_elevated(&self) -> (r: Result<(), PermissionError>)
        ensures
            r is Ok,
    {
        Ok(())
    }
}

} // verus!
