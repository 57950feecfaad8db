//! Records exchanged with the user interface, and the mapping of internal
//! errors to user-facing ones (a code for programs, a friendly message for
//! people; never SQL, paths or stack traces).

use vstd::prelude::*;

use crate::rollback::RollbackError;
use crate::text::owned;

verus! {

/// Error shown to the user interface.
#[derive(Debug, Clone)]
pub struct AppError {
    pub code: String,
    pub message: String,
}

/// The (code, message) shown for a rollback error: domain errors have their
/// own safe text; infrastructure errors get a generic one.
pub open spec fn rollback_error_text(e: RollbackError) -> (Seq<char>, Seq<char>) {
    match e {
        RollbackError::NotFound(_) => ("rollback_not_found"@, "Snapshot não encontrado."@),
        RollbackError::Integrity => (
            "rollback_integrity"@,
            "Integridade do snapshot inválida — rollback cancelado por segurança."@,
        ),
        RollbackError::Validation(_) => (
            "rollback_validation"@,
            "Não foi possível confirmar a operação. Nenhuma alteração permanente foi feita."@,
        ),
        _ => ("rollback"@, "Falha na operação de proteção. Tente novamente."@),
    }
}

impl AppError {
    /// The user-facing error of a rollback error.
    pub fn from_rollback(e: &RollbackError) -> (a: AppError)
        ensures
            (a.code@, a.message@) == rollback_error_text(*e),
    {
        let (code, message): (&str, &str) = match e {
            RollbackError::NotFound(_) => ("rollback_not_found", "Snapshot não encontrado."),
            RollbackError::Integrity => (
                "rollback_integrity",
                "Integridade do snapshot inválida — rollback cancelado por segurança.",
            ),
            RollbackError::Validation(_) => (
                "rollback_validation",
                "Não foi possível confirmar a operação. Nenhuma alteração permanente foi feita.",
            ),
            _ => ("rollback", "Falha na operação de proteção. Tente novamente."),
        };
        AppError { code: owned(code), message: owned(message) }
    }

    /// The user-facing error of a storage failure (the detail goes to the log only).
    pub fn storage() -> (a: AppError)
        ensures
            a.code@ == "storage"@,
            a.message@ == "Falha ao acessar os dados locais. Tente novamente."@,
    {
        AppError {
            code: owned("storage"),
            message: owned("Falha ao acessar os dados locais. Tente novamente."),
        }
    }
}

/// Failure message of the service bootstrap, recorded once.
#[derive(Debug, Clone)]
pub struct BootStatus {
    pub error: Option<String>,
}

/// Records the bootstrap failure message; only the first one is kept.
pub fn set_boot_error(status: &mut BootStatus, msg: String)
    ensures
        old(status).error is None ==> final(status).error == Some(msg),
        old(status).error is Some ==> final(status).error == old(status).error,
{
    if status.error.is_none() {
        status.error = Some(msg);
    }
}

/// A game process detected as running.
#[derive(Debug, Clone)]
pub struct DetectedGame {
    pub pid: u32,
    pub name: String,
    pub exe: String,
}

/// Result of boosting a process priority.
#[derive(Debug, Clone)]
pub struct BoostResult {
    pub pid: u32,
    pub success: bool,
    pub message: String,
}

/// A detected GPU.
#[derive(Debug, Clone)]
pub struct GpuDetectResult {
    pub name: String,
    pub vendor: String,
}

/// Result of flushing the DNS cache.
#[derive(Debug, Clone)]
pub struct DnsFlushResult {
    pub success: bool,
    pub message: String,
}

/// A heavy background application.
#[derive(Debug, Clone)]
pub struct HeavyAppDetected {
    pub name: String,
    pub exe: String,
    /// "baixo" | "medio" | "alto"
    pub impact: String,
    pub description: String,
}

/// An installed game.
#[derive(Debug, Clone)]
pub struct InstalledGameInfo {
    pub id: String,
    pub name: String,
    pub exe: String,
    pub launcher: String,
    pub install_path: String,
}

/// A game assigned to a profile.
#[derive(Debug, Clone)]
pub struct GameAssignment {
    pub db_id: i64,
    pub exe_match: String,
    pub game_name: String,
    pub profile_id: String,
}

/// One run of an assigned game.
#[derive(Debug, Clone)]
pub struct GameRun {
    pub id: i64,
    pub ts: i64,
    pub exe_match: String,
    pub game_name: String,
    pub profile_id: String,
    pub source: String,
}

/// Live analysis shown while a game runs.
#[derive(Debug, Clone)]
pub struct LiveAnalysis {
    /// "excelente" | "bom" | "atencao" | "critico"
    pub status: String,
    /// "Healthy" | "CpuBound" | "GpuBound" | "MemoryBound" | "ThermalBound" | "BackgroundInterference"
    pub bottleneck: String,
    pub headline: String,
    pub detail: String,
}

/// One installed driver.
#[derive(Debug, Clone)]
pub struct DriverHealthInfo {
    /// "gpu" | "network" | "audio"
    pub category: String,
    pub name: String,
    pub vendor: Option<String>,
    pub version: Option<String>,
    pub date: Option<String>,
}

/// Installed drivers by category.
#[derive(Debug, Clone)]
pub struct DriverHealthReport {
    pub gpu: Vec<DriverHealthInfo>,
    pub network: Vec<DriverHealthInfo>,
    pub audio: Vec<DriverHealthInfo>,
}

} // verus!
