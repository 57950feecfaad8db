use tkspeed::bridge::{set_boot_error, AppError, BootStatus};
use tkspeed::contracts::{PermissionBroker, PermissionError};
use tkspeed::rollback::RollbackError;

#[test]
fn rollback_errors_map_to_safe_messages() {
    let a = AppError::from_rollback(&RollbackError::NotFound(3));
    assert_eq!(a.code, "rollback_not_found");
    assert_eq!(a.message, "Snapshot não encontrado.");
    let b = AppError::from_rollback(&RollbackError::Integrity);
    assert_eq!(b.code, "rollback_integrity");
    let c = AppError::from_rollback(&RollbackError::Validation("x".into()));
    assert_eq!(c.code, "rollback_validation");
    let d = AppError::from_rollback(&RollbackError::Storage("SELECT * FROM secret".into()));
    assert_eq!(d.code, "rollback");
    assert!(!d.message.contains("SELECT"));
    assert_eq!(AppError::storage().code, "storage");
}

#[test]
fn boot_error_keeps_the_first_message() {
    let mut s = BootStatus { error: None };
    set_boot_error(&mut s, "primeira".into());
    set_boot_error(&mut s, "segunda".into());
    assert_eq!(s.error.as_deref(), Some("primeira"));
}

#[test]
fn elevation_is_always_granted() {
    assert!(PermissionBroker.ensure_elevated().is_ok());
    let e: Result<(), PermissionError> = PermissionBroker.ensure_elevated();
    assert_eq!(e, Ok(()));
}
