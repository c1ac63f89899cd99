use duroxide_turso::options::{TursoJournalMode, TursoOptions, TursoSynchronous, TursoTransactionMode};
use duroxide_turso::provider::{effective_options, normalize_database_path, plan_turso_setup, TursoProviderSettings};
use duroxide_turso::timespan::TimeSpan;

#[test]
fn database_urls_normalise_to_paths() {
    for url in [":memory:", "turso::memory:", "sqlite::memory:", "file:db?mode=memory&cache=shared"] {
        assert_eq!(normalize_database_path(url), ":memory:");
    }
    assert_eq!(normalize_database_path("turso:data.db"), "data.db");
    assert_eq!(normalize_database_path("sqlite:data.db"), "data.db");
    assert_eq!(normalize_database_path("data.db"), "data.db");
    assert_eq!(normalize_database_path("turso:sqlite:x"), "sqlite:x");
}

#[test]
fn defaults_match_the_documented_values() {
    let o = TursoOptions::default();
    assert_eq!(o.max_connections, 5);
    assert_eq!(o.busy_timeout, TimeSpan::from_secs(60));
    assert_eq!(o.journal_mode, TursoJournalMode::Auto);
    assert_eq!(o.synchronous, TursoSynchronous::Auto);
    assert_eq!(o.wal_autocheckpoint, Some(10000));
    assert_eq!(o.cache_size, Some(-64000));
    assert_eq!(o.transaction_mode, TursoTransactionMode::Immediate);
    assert_eq!(o.transaction_max_retries, 8);
    assert_eq!(o.transaction_retry_initial_backoff, TimeSpan::from_millis(1));
    assert_eq!(o.transaction_retry_max_backoff, TimeSpan::from_millis(50));
    assert_eq!(o.ack_lock_extension, Some(TimeSpan::from_secs(300)));
    let b = TursoOptions::builder().build();
    assert_eq!(b.max_connections, 5);
    assert_eq!(effective_options(None).transaction_max_retries, 8);
    assert_eq!(TursoTransactionMode::default().begin_statement(), "BEGIN IMMEDIATE");
    assert_eq!(TursoTransactionMode::Concurrent.begin_statement(), "BEGIN CONCURRENT");
}

#[test]
fn pragma_values_render_each_mode() {
    assert_eq!(TursoJournalMode::Auto.pragma_value(true), "MEMORY");
    assert_eq!(TursoJournalMode::Auto.pragma_value(false), "WAL");
    assert_eq!(TursoJournalMode::Truncate.pragma_value(true), "TRUNCATE");
    assert_eq!(TursoJournalMode::Custom("'mvcc'".into()).pragma_value(false), "'mvcc'");
    assert_eq!(TursoSynchronous::Extra.pragma_value(true), "EXTRA");
    assert!(TursoJournalMode::Mvcc.requires_mvcc_schema_compat());
    assert!(TursoJournalMode::Custom("'MVCC'".into()).requires_mvcc_schema_compat());
    assert!(!TursoJournalMode::Wal.requires_mvcc_schema_compat());
}

fn concurrent_settings(max_retries: u32) -> TursoProviderSettings {
    let options = TursoOptions::builder()
        .transaction_mode(TursoTransactionMode::Concurrent)
        .transaction_max_retries(max_retries)
        .build();
    TursoProviderSettings::from_options(&options)
}

#[test]
fn retries_only_concurrent_conflicts_within_budget() {
    let s = concurrent_settings(2);
    let msg = "Turso transaction retry: conflict";
    assert!(s.should_retry_transaction_operation(true, msg, 0));
    assert!(s.should_retry_transaction_operation(true, msg, 1));
    assert!(!s.should_retry_transaction_operation(true, msg, 2));
    assert!(!s.should_retry_transaction_operation(false, msg, 0));
    assert!(!s.should_retry_transaction_operation(true, "database is locked", 0));
    let immediate = TursoProviderSettings::from_options(&TursoOptions::default());
    assert!(!immediate.should_retry_transaction_operation(true, msg, 0));
}

#[test]
fn backoff_doubles_then_caps() {
    let s = concurrent_settings(8);
    let millis: Vec<u128> = (0..8).map(|r| s.transaction_retry_backoff(r).as_nanos() / 1_000_000).collect();
    assert_eq!(millis, vec![1, 2, 4, 8, 16, 32, 50, 50]);
    let options = TursoOptions::builder()
        .transaction_retry_initial_backoff(TimeSpan::from_parts(0, 3))
        .transaction_retry_max_backoff(TimeSpan::from_secs(u64::MAX))
        .build();
    let s = TursoProviderSettings::from_options(&options);
    assert_eq!(s.transaction_retry_backoff(10).as_nanos(), 3 * 1024);
    assert_eq!(s.transaction_retry_backoff(50).as_nanos(), 3 * 1024);
    let huge = TursoOptions::builder()
        .transaction_retry_initial_backoff(TimeSpan::from_secs(u64::MAX))
        .transaction_retry_max_backoff(TimeSpan::from_parts(u64::MAX, 999_999_999))
        .build();
    let s = TursoProviderSettings::from_options(&huge);
    assert_eq!(s.transaction_retry_backoff(3), TimeSpan::from_parts(u64::MAX, 999_999_999));
}

#[test]
fn time_spans_convert_like_durations() {
    let t = TimeSpan::from_millis(1500);
    assert_eq!(t.as_secs(), 1);
    assert_eq!(t.subsec_nanos(), 500_000_000);
    let d = std::time::Duration::from_millis(1500);
    assert_eq!(d.saturating_mul(3).as_nanos(), t.saturating_mul(3).as_nanos());
    assert_eq!(TimeSpan::from_secs(2).min(t), t);
    assert!(t.le(&TimeSpan::from_secs(2)));
}

#[test]
fn setup_plan_for_file_and_memory_stores() {
    let options = TursoOptions::default();
    let plan = plan_turso_setup("turso:/tmp/x.db", &options);
    assert_eq!(plan.database_path, "/tmp/x.db");
    assert!(!plan.is_memory);
    assert_eq!(
        plan.optional_pragmas,
        vec![
            "PRAGMA journal_mode = WAL".to_string(),
            "PRAGMA synchronous = NORMAL".to_string(),
            "PRAGMA wal_autocheckpoint = 10000".to_string(),
            "PRAGMA cache_size = -64000".to_string(),
        ]
    );
    assert_eq!(plan.required_pragma, "PRAGMA foreign_keys = ON");
    assert_eq!(plan.queue_id_column, "id INTEGER PRIMARY KEY AUTOINCREMENT");
    assert_eq!(plan.pool.max_connections, 5);
    assert_eq!(plan.pool.begin_statement, "BEGIN IMMEDIATE");

    let mvcc = TursoOptions::builder()
        .journal_mode(TursoJournalMode::Mvcc)
        .transaction_mode(TursoTransactionMode::Concurrent)
        .build();
    let plan = plan_turso_setup(":memory:", &mvcc);
    assert!(plan.is_memory);
    assert_eq!(
        plan.optional_pragmas,
        vec!["PRAGMA journal_mode = mvcc".to_string(), "PRAGMA synchronous = OFF".to_string()]
    );
    assert_eq!(plan.queue_id_column, "id INTEGER PRIMARY KEY");
    assert_eq!(plan.pool.begin_statement, "BEGIN CONCURRENT");
    assert_eq!(plan.settings.transaction_mode, TursoTransactionMode::Concurrent);
}

#[test]
fn only_automatic_settings_depend_on_memory() {
    for mode in [TursoJournalMode::Delete, TursoJournalMode::Wal, TursoJournalMode::Off, TursoJournalMode::Mvcc, TursoJournalMode::Persist, TursoJournalMode::Memory] {
        assert_eq!(mode.pragma_value(true), mode.pragma_value(false));
    }
    for mode in [TursoSynchronous::Off, TursoSynchronous::Normal, TursoSynchronous::Full, TursoSynchronous::Extra] {
        assert_eq!(mode.pragma_value(true), mode.pragma_value(false));
    }
    assert_ne!(TursoJournalMode::Auto.pragma_value(true), TursoJournalMode::Auto.pragma_value(false));
}
