use duroxide_turso::options::{TursoJournalMode, TursoTransactionMode};
use duroxide_turso::sqlite::{connection_pragmas, in_memory_url, is_in_memory_url, max_connections, schema_setup, SchemaSetup, SqliteOptions};
use duroxide_turso::stress::{
    db_file_paths, sqlite_suite_plan, stress_config, temp_db_path, turso_suite_plan, FileSqliteFactory,
    FileTursoFactory, InMemoryTursoFactory, StressProvider,
};

#[test]
fn sqlite_connections_get_memory_or_file_pragmas() {
    let _ = SqliteOptions::default();
    assert!(is_in_memory_url("sqlite::memory:"));
    assert!(is_in_memory_url(in_memory_url()));
    assert!(is_in_memory_url("sqlite:file:x?mode=memory"));
    assert!(!is_in_memory_url("sqlite:data.db"));
    assert_eq!(
        connection_pragmas(true),
        vec!["PRAGMA journal_mode = MEMORY", "PRAGMA synchronous = OFF", "PRAGMA busy_timeout = 60000", "PRAGMA foreign_keys = ON"]
    );
    assert_eq!(connection_pragmas(false).len(), 6);
    assert_eq!(connection_pragmas(false)[1], "PRAGMA synchronous = WAL");
    assert_eq!(schema_setup("sqlite::memory:"), SchemaSetup::CreateDirectly);
    assert_eq!(schema_setup("sqlite:data.db"), SchemaSetup::MigrateThenCreate);
    assert_eq!(max_connections(), 5);
}

#[test]
fn scratch_paths_and_their_files() {
    assert_eq!(temp_db_path("turso", 42, 1700000000123456789), "/tmp/duroxide_turso_stress_42_1700000000123456789.db");
    assert_eq!(db_file_paths("/tmp/a.db"), vec!["/tmp/a.db", "/tmp/a.db-wal", "/tmp/a.db-shm"]);
    let f = FileSqliteFactory::at_path("/tmp/s.db".to_string());
    assert_eq!(f.db_path(), "/tmp/s.db");
    assert_eq!(f.database_url(), "sqlite:/tmp/s.db");
    assert_eq!(f.cleanup_paths().len(), 3);
}

#[test]
fn turso_factories_carry_their_options() {
    let f = FileTursoFactory::mvcc_concurrent("/tmp/t.db".to_string());
    assert_eq!(f.database_url(), "turso:/tmp/t.db");
    let o = f.options().clone().unwrap();
    assert_eq!(o.journal_mode, TursoJournalMode::Mvcc);
    assert_eq!(o.transaction_mode, TursoTransactionMode::Concurrent);
    assert_eq!(o.max_connections, 5);
    assert!(FileTursoFactory::immediate("/tmp/u.db".to_string()).options().is_none());
    assert!(InMemoryTursoFactory::new(None).options().is_none());
}

#[test]
fn suites_run_each_provider_with_each_concurrency() {
    let c = stress_config(30, 2, 3);
    assert_eq!((c.max_concurrent, c.duration_secs, c.tasks_per_instance, c.activity_delay_ms), (20, 30, 5, 10));
    assert_eq!((c.orch_concurrency, c.worker_concurrency, c.wait_timeout_secs), (2, 3, 60));
    let runs = sqlite_suite_plan(10);
    let labels: Vec<(&str, String)> = runs.iter().map(|r| (r.provider.label(), r.config_label.clone())).collect();
    assert_eq!(
        labels,
        vec![
            ("In-Memory SQLite", "1/1".to_string()),
            ("In-Memory SQLite", "2/2".to_string()),
            ("File SQLite", "1/1".to_string()),
            ("File SQLite", "2/2".to_string()),
        ]
    );
    let runs = turso_suite_plan(5);
    assert_eq!(runs.len(), 6);
    assert_eq!(runs[5].provider, StressProvider::FileTursoMvcc);
    assert_eq!(runs[5].provider.label(), "Turso MVCC");
    assert!(runs[5].provider.uses_scratch_file());
    assert!(!runs[0].provider.uses_scratch_file());
    assert_eq!(runs[3].config, stress_config(5, 2, 2));
}
