//! Stress-test configuration: the provider factories of the stress suites,
//! the database files they use, and the runs each suite performs, in order.
//! Reading the clock and process id, touching files and running the
//! workload happen outside this crate.

use vstd::prelude::*;

use crate::options::{is_default_options, TursoJournalMode, TursoOptions, TursoTransactionMode};
use crate::provider::texts_view;
use crate::text::{concat2, decimal, u128_to_decimal, u32_to_decimal, usize_to_decimal};

verus! {

/// Parameters of one parallel-orchestrations stress run.
#[derive(Debug, Clone, Copy, PartialEq, Eq, Structural)]
pub struct StressConfig {
    pub max_concurrent: usize,
    pub duration_secs: u64,
    pub tasks_per_instance: usize,
    pub activity_delay_ms: u64,
    pub orch_concurrency: usize,
    pub worker_concurrency: usize,
    pub wait_timeout_secs: u64,
}

/// The configuration of a run lasting `duration_secs` with the given
/// orchestrator and worker concurrency: up to 20 concurrent instances of 5
/// activities of 10 ms each, waiting at most 60 seconds for completion.
pub fn stress_config(duration_secs: u64, orch_conc: usize, worker_conc: usize) -> (c: StressConfig)
    ensures
        c == (StressConfig {
            max_concurrent: 20,
            duration_secs,
            tasks_per_instance: 5,
            activity_delay_ms: 10,
            orch_concurrency: orch_conc,
            worker_concurrency: worker_conc,
            wait_timeout_secs: 60,
        }),
{
    StressConfig {
        max_concurrent: 20,
        duration_secs,
        tasks_per_instance: 5,
        activity_delay_ms: 10,
        orch_concurrency: orch_conc,
        worker_concurrency: worker_conc,
        wait_timeout_secs: 60,
    }
}

/// Path of a scratch database, unique per provider kind, process and
/// instant: `/tmp/duroxide_{prefix}_stress_{pid}_{nanos}.db`.
pub open spec fn temp_db_path_text(prefix: Seq<char>, pid: u32, nanos: u128) -> Seq<char> {
    "/tmp/duroxide_"@ + prefix + "_stress_"@ + decimal(pid as nat) + "_"@ + decimal(nanos as nat)
        + ".db"@
}

/// Path of a scratch database for `prefix`, given the process id and the
/// time since the Unix epoch in nanoseconds.
pub fn temp_db_path(prefix: &str, pid: u32, nanos: u128) -> (p: String)
    ensures
        p@ == temp_db_path_text(prefix@, pid, nanos),
{
    let mut p = String::from_str("/tmp/duroxide_");
    p.append(prefix);
    p.append("_stress_");
    p.append(u32_to_decimal(pid).as_str());
    p.append("_");
    p.append(u128_to_decimal(nanos).as_str());
    p.append(".db");
    p
}

/// The files a database at `db_path` may leave behind: the database itself
/// and its write-ahead log and shared-memory files.
pub open spec fn db_file_texts(db_path: Seq<char>) -> Seq<Seq<char>> {
    seq![db_path, db_path + "-wal"@, db_path + "-shm"@]
}

/// The files to remove when cleaning up a database at `db_path`.
pub fn db_file_paths(db_path: &str) -> (v: Vec<String>)
    ensures
        texts_view(v@) == db_file_texts(db_path@),
{
    let mut v: Vec<String> = Vec::new();
    v.push(String::from_str(db_path));
    v.push(concat2(db_path, "-wal"));
    v.push(concat2(db_path, "-shm"));
    assert(texts_view(v@) =~= db_file_texts(db_path@));
    v
}

/// Factory of in-memory SQLite providers.
pub struct InMemorySqliteFactory;

/// Factory of file-backed SQLite providers, all on one database file.
pub struct FileSqliteFactory {
    db_path: String,
}

impl FileSqliteFactory {
    /// A factory for the database file at `db_path`.
    pub fn at_path(db_path: String) -> (f: FileSqliteFactory)
        ensures
            f.path() == db_path@,
    {
        FileSqliteFactory { db_path }
    }

    pub closed spec fn path(&self) -> Seq<char> {
        self.db_path@
    }

    /// The database file.
    pub fn db_path(&self) -> (p: &str)
        ensures
            p@ == self.path(),
    {
        self.db_path.as_str()
    }

    /// The URL providers are opened with.
    pub fn database_url(&self) -> (u: String)
        ensures
            u@ == "sqlite:"@ + self.path(),
    {
        concat2("sqlite:", self.db_path.as_str())
    }

    /// The files to remove when the factory is cleaned up.
    pub fn cleanup_paths(&self) -> (v: Vec<String>)
        ensures
            texts_view(v@) == db_file_texts(self.path()),
    {
        db_file_paths(self.db_path.as_str())
    }
}

/// Factory of in-memory Turso providers.
pub struct InMemoryTursoFactory {
    options: Option<TursoOptions>,
}

impl InMemoryTursoFactory {
    /// A factory opening providers with `options` (the defaults when `None`).
    pub fn new(options: Option<TursoOptions>) -> (f: InMemoryTursoFactory)
        ensures
            f.configured() == options,
    {
        InMemoryTursoFactory { options }
    }

    pub closed spec fn configured(&self) -> Option<TursoOptions> {
        self.options
    }

    /// The options providers are opened with.
    pub fn options(&self) -> (o: &Option<TursoOptions>)
        ensures
            *o == self.configured(),
    {
        &self.options
    }
}

/// Factory of file-backed Turso providers, all on one database file.
pub struct FileTursoFactory {
    db_path: String,
    options: Option<TursoOptions>,
}

/// Options of Turso's MVCC journal with concurrent transactions, the rest
/// left at their defaults.
pub open spec fn is_mvcc_concurrent_options(o: TursoOptions) -> bool {
    &&& o.journal_mode == TursoJournalMode::Mvcc
    &&& o.transaction_mode == TursoTransactionMode::Concurrent
    &&& is_default_options(
        TursoOptions {
            journal_mode: TursoJournalMode::Auto,
            transaction_mode: TursoTransactionMode::Immediate,
            ..o
        },
    )
}

impl FileTursoFactory {
    /// A factory for the database file at `db_path`, opening providers with
    /// `options` (the defaults when `None`).
    pub fn new(db_path: String, options: Option<TursoOptions>) -> (f: FileTursoFactory)
        ensures
            f.path() == db_path@,
            f.configured() == options,
    {
        FileTursoFactory { db_path, options }
    }

    /// A factory with the default options (`BEGIN IMMEDIATE` transactions).
    pub fn immediate(db_path: String) -> (f: FileTursoFactory)
        ensures
            f.path() == db_path@,
            f.configured() is None,
    {
        Self::new(db_path, None)
    }

    /// A factory using Turso's MVCC journal with `BEGIN CONCURRENT`.
    pub fn mvcc_concurrent(db_path: String) -> (f: FileTursoFactory)
        ensures
            f.path() == db_path@,
            f.configured() matches Some(o) && is_mvcc_concurrent_options(o),
    {
        let mut options = TursoOptions::default();
        options.journal_mode = TursoJournalMode::Mvcc;
        options.transaction_mode = TursoTransactionMode::Concurrent;
        Self::new(db_path, Some(options))
    }

    pub closed spec fn path(&self) -> Seq<char> {
        self.db_path@
    }

    pub closed spec fn configured(&self) -> Option<TursoOptions> {
        self.options
    }

    /// The database file.
    pub fn db_path(&self) -> (p: &str)
        ensures
            p@ == self.path(),
    {
        self.db_path.as_str()
    }

    /// The options providers are opened with.
    pub fn options(&self) -> (o: &Option<TursoOptions>)
        ensures
            *o == self.configured(),
    {
        &self.options
    }

    /// The URL providers are opened with.
    pub fn database_url(&self) -> (u: String)
        ensures
            u@ == "turso:"@ + self.path(),
    {
        concat2("turso:", self.db_path.as_str())
    }

    /// The files to remove when the factory is cleaned up.
    pub fn cleanup_paths(&self) -> (v: Vec<String>)
        ensures
            texts_view(v@) == db_file_texts(self.path()),
    {
        db_file_paths(self.db_path.as_str())
    }
}

// ---------------------------------------------------------------------------
// Suites
// ---------------------------------------------------------------------------

/// The provider set-up a stress run exercises.
#[derive(Debug, Clone, Copy, PartialEq, Eq, Structural)]
pub enum StressProvider {
    InMemorySqlite,
    FileSqlite,
    InMemoryTurso,
    FileTursoImmediate,
    FileTursoMvcc,
}

/// The label a provider set-up is reported under.
pub open spec fn provider_label_text(p: StressProvider) -> Seq<char> {
    match p {
        StressProvider::InMemorySqlite => "In-Memory SQLite"@,
        StressProvider::FileSqlite => "File SQLite"@,
        StressProvider::InMemoryTurso => "In-Memory Turso"@,
        StressProvider::FileTursoImmediate => "File Turso"@,
        StressProvider::FileTursoMvcc => "Turso MVCC"@,
    }
}

/// Whether a run uses a fresh database file, removed once the run ends.
pub open spec fn uses_scratch_file(p: StressProvider) -> bool {
    p != StressProvider::InMemorySqlite && p != StressProvider::InMemoryTurso
}

impl StressProvider {
    /// The label this set-up is reported under.
    pub fn label(&self) -> (s: &'static str)
        ensures
            s@ == provider_label_text(*self),
    {
        match self {
            StressProvider::InMemorySqlite => "In-Memory SQLite",
            StressProvider::FileSqlite => "File SQLite",
            StressProvider::InMemoryTurso => "In-Memory Turso",
            StressProvider::FileTursoImmediate => "File Turso",
            StressProvider::FileTursoMvcc => "Turso MVCC",
        }
    }

    /// Whether the run uses a fresh database file, removed once it ends.
    pub fn uses_scratch_file(&self) -> (b: bool)
        ensures
            b == uses_scratch_file(*self),
    {
        match self {
            StressProvider::InMemorySqlite => false,
            StressProvider::InMemoryTurso => false,
            _ => true,
        }
    }
}

/// One run of a stress suite.
pub struct StressRun {
    pub provider: StressProvider,
    pub config: StressConfig,
    /// `"{orchestrator concurrency}/{worker concurrency}"`.
    pub config_label: String,
}

/// The concurrency combinations each provider set-up is run with, in order.
pub open spec fn concurrency_combos() -> Seq<(usize, usize)> {
    seq![(1usize, 1usize), (2usize, 2usize)]
}

/// The runs of a suite: each provider set-up in turn, each with every
/// concurrency combination in turn.
pub open spec fn suite_runs(providers: Seq<StressProvider>, duration_secs: u64) -> Seq<(StressProvider, StressConfig, Seq<char>)> {
    Seq::new(
        providers.len() * 2,
        |i: int| {
            let p = providers[i / 2];
            let c = concurrency_combos()[i % 2];
            (
                p,
                StressConfig {
                    max_concurrent: 20,
                    duration_secs,
                    tasks_per_instance: 5,
                    activity_delay_ms: 10,
                    orch_concurrency: c.0,
                    worker_concurrency: c.1,
                    wait_timeout_secs: 60,
                },
                decimal(c.0 as nat) + "/"@ + decimal(c.1 as nat),
            )
        },
    )
}

/// Views of a sequence of runs.
pub open spec fn runs_view(runs: Seq<StressRun>) -> Seq<(StressProvider, StressConfig, Seq<char>)> {
    runs.map_values(|r: StressRun| (r.provider, r.config, r.config_label@))
}

fn config_label(orch_conc: usize, worker_conc: usize) -> (s: String)
    ensures
        s@ == decimal(orch_conc as nat) + "/"@ + decimal(worker_conc as nat),
{
    let mut s = usize_to_decimal(orch_conc);
    s.append("/");
    s.append(usize_to_decimal(worker_conc).as_str());
    s
}

fn plan_runs(providers: &Vec<StressProvider>, duration_secs: u64) -> (runs: Vec<StressRun>)
    requires
        providers@.len() <= 8,
    ensures
        runs_view(runs@) == suite_runs(providers@, duration_secs),
{
    let mut runs: Vec<StressRun> = Vec::new();
    let mut k: usize = 0;
    while k < providers.len()
        invariant
            providers@.len() <= 8,
            k <= providers@.len(),
            runs_view(runs@) == suite_runs(providers@, duration_secs).subrange(0, 2 * k),
        decreases providers@.len() - k,
    {
        let p = providers[k];
        let mut j: usize = 0;
        while j < 2
            invariant
                providers@.len() <= 8,
                k < providers@.len(),
                p == providers@[k as int],
                j <= 2,
                runs_view(runs@) == suite_runs(providers@, duration_secs).subrange(0, 2 * k + j),
            decreases 2 - j,
        {
            let conc: usize = j + 1;
            let ghost before = runs@;
            let run = StressRun {
                provider: p,
                config: stress_config(duration_secs, conc, conc),
                config_label: config_label(conc, conc),
            };
            runs.push(run);
            proof {
                let i = 2 * k + j;
                assert((i / 2) == k as int) by {
                    assert(0 <= j < 2);
                }
                assert(i % 2 == j as int);
                assert(runs_view(runs@) =~= runs_view(before).push(
                    (run.provider, run.config, run.config_label@),
                ));
                assert(suite_runs(providers@, duration_secs).subrange(0, i + 1) =~= suite_runs(
                    providers@,
                    duration_secs,
                ).subrange(0, i).push(suite_runs(providers@, duration_secs)[i]));
            }
            j = j + 1;
        }
        k = k + 1;
    }
    assert(suite_runs(providers@, duration_secs).subrange(0, 2 * k) =~= suite_runs(
        providers@,
        duration_secs,
    ));
    runs
}

/// The SQLite suite: in-memory, then file-backed.
pub open spec fn sqlite_suite_providers() -> Seq<StressProvider> {
    seq![StressProvider::InMemorySqlite, StressProvider::FileSqlite]
}

/// The Turso suite: in-memory, file-backed with `BEGIN IMMEDIATE`, then
/// file-backed with MVCC and `BEGIN CONCURRENT`.
pub open spec fn turso_suite_providers() -> Seq<StressProvider> {
    seq![
        StressProvider::InMemoryTurso,
        StressProvider::FileTursoImmediate,
        StressProvider::FileTursoMvcc,
    ]
}

/// The runs of the SQLite stress suite, in order.
pub fn sqlite_suite_plan(duration_secs: u64) -> (runs: Vec<StressRun>)
    ensures
        runs_view(runs@) == suite_runs(sqlite_suite_providers(), duration_secs),
{
    let mut providers: Vec<StressProvider> = Vec::new();
    providers.push(StressProvider::InMemorySqlite);
    providers.push(StressProvider::FileSqlite);
    assert(providers@ =~= sqlite_suite_providers());
    plan_runs(&providers, duration_secs)
}

/// The runs of the Turso stress suite, in order.
pub fn turso_suite_plan(duration_secs: u64) -> (runs: Vec<StressRun>)
    ensures
        runs_view(runs@) == suite_runs(turso_suite_providers(), duration_secs),
{
    let mut providers: Vec<StressProvider> = Vec::new();
    providers.push(StressProvider::InMemoryTurso);
    providers.push(StressProvider::FileTursoImmediate);
    providers.push(StressProvider::FileTursoMvcc);
    assert(providers@ =~= turso_suite_providers());
    plan_runs(&providers, duration_secs)
}

} // verus!
