use duroxide_turso::options::{TursoJournalMode, TursoOptions, TursoSynchronous, TursoTransactionMode};
use duroxide_turso::timespan::TimeSpan;
use duroxide_turso::values::{DbValue, IntoDbValue};

#[test]
fn turso_journal_mode_mvcc_uses_unquoted_pragma_value() {
    assert_eq!(TursoJournalMode::Mvcc.pragma_value(false), "mvcc");
}

#[test]
fn turso_synchronous_auto_uses_valid_sqlite_values() {
    assert_eq!(TursoSynchronous::Auto.pragma_value(true), "OFF");
    assert_eq!(TursoSynchronous::Auto.pragma_value(false), "NORMAL");
}

#[test]
fn turso_options_builder_sets_complex_configuration() {
    let options = TursoOptions::builder()
        .max_connections(7)
        .busy_timeout(TimeSpan::from_secs(9))
        .journal_mode(TursoJournalMode::Mvcc)
        .synchronous(TursoSynchronous::Normal)
        .wal_autocheckpoint(None)
        .cache_size(Some(-32000))
        .transaction_mode(TursoTransactionMode::Concurrent)
        .transaction_max_retries(3)
        .transaction_retry_initial_backoff(TimeSpan::from_millis(2))
        .transaction_retry_max_backoff(TimeSpan::from_millis(20))
        .ack_lock_extension(Some(TimeSpan::from_secs(45)))
        .build();

    assert_eq!(options.max_connections, 7);
    assert_eq!(options.busy_timeout, TimeSpan::from_secs(9));
    assert_eq!(options.journal_mode, TursoJournalMode::Mvcc);
    assert_eq!(options.synchronous, TursoSynchronous::Normal);
    assert_eq!(options.wal_autocheckpoint, None);
    assert_eq!(options.cache_size, Some(-32000));
    assert_eq!(options.transaction_mode, TursoTransactionMode::Concurrent);
    assert_eq!(options.transaction_max_retries, 3);
    assert_eq!(options.transaction_retry_initial_backoff, TimeSpan::from_millis(2));
    assert_eq!(options.transaction_retry_max_backoff, TimeSpan::from_millis(20));
    assert_eq!(options.ack_lock_extension, Some(TimeSpan::from_secs(45)));
}

#[test]
fn turso_u64_values_bind_as_signed_sqlite_integers() {
    match 42_u64.into_db_value() {
        DbValue::Integer(value) => assert_eq!(value, 42),
        value => panic!("expected integer binding, got {value:?}"),
    }
}
