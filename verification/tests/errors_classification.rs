use duroxide_turso::errors::{is_no_active_transaction_error, Error, TursoError, TursoErrorKind};

fn turso(kind: TursoErrorKind, message: &str) -> Error {
    Error::from(TursoError::new(kind, message))
}

#[test]
fn busy_and_conflicts_are_retryable() {
    assert!(turso(TursoErrorKind::Busy, "database is locked").is_turso_transaction_retryable());
    assert!(turso(TursoErrorKind::BusySnapshot, "").is_turso_transaction_retryable());
    assert!(turso(TursoErrorKind::Error, "Write-Write CONFLICT on row").is_turso_transaction_retryable());
    assert!(!turso(TursoErrorKind::Error, "syntax error").is_turso_transaction_retryable());
    assert!(!turso(TursoErrorKind::Constraint, "conflict").is_turso_transaction_retryable());
    assert!(!Error::RowNotFound.is_turso_transaction_retryable());
    assert!(!Error::Protocol("conflict".into()).is_turso_transaction_retryable());
}

#[test]
fn rollback_without_transaction_is_recognised() {
    let e = TursoError::new(TursoErrorKind::Error, "Cannot rollback - No transaction is active");
    assert!(is_no_active_transaction_error(&e));
    let e = TursoError::new(TursoErrorKind::Error, "cannot rollback: disk full");
    assert!(!is_no_active_transaction_error(&e));
    let e = TursoError::new(TursoErrorKind::Misuse, "cannot rollback - no transaction is active");
    assert!(!is_no_active_transaction_error(&e));
}

#[test]
fn error_messages_display_like_the_sdk() {
    assert_eq!(Error::RowNotFound.message(), "query returned no rows");
    assert_eq!(Error::Protocol("bad".into()).message(), "bad");
    assert_eq!(turso(TursoErrorKind::Busy, "locked").message(), "locked");
    assert_eq!(turso(TursoErrorKind::QueryReturnedNoRows, "").message(), "Query returned no rows");
    assert_eq!(turso(TursoErrorKind::ConversionFailure, "x").message(), "Conversion failure: `x`");
    assert_eq!(turso(TursoErrorKind::ToSqlConversionFailure, "y").message(), "SQL conversion failure: `y`");
    let io = TursoError { kind: TursoErrorKind::IoError, message: "entity not found".into(), detail: "open".into() };
    assert_eq!(Error::Turso(io).message(), "I/O error (open): entity not found");
}
