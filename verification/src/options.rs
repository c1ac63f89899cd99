//! Configuration of the Turso-backed provider: journal, synchronous and
//! transaction modes with the PRAGMA / statement text they render to, the
//! options record with its defaults, and its builder.

use vstd::prelude::*;

use crate::text::{lower_text, lowercase_contains, text_contains};
use crate::timespan::{TimeSpan, NANOS_PER_SEC};

verus! {

/// Journal mode for Turso's SQLite-compatible engine.
#[derive(Debug, Clone, PartialEq, Eq)]
pub enum TursoJournalMode {
    /// `MEMORY` for in-memory databases and `WAL` for file-backed ones.
    Auto,
    Delete,
    Truncate,
    Persist,
    Memory,
    Wal,
    Off,
    /// Turso MVCC journal mode; pair it with
    /// [`TursoTransactionMode::Concurrent`] for optimistic concurrent writes.
    Mvcc,
    /// Raw PRAGMA value.
    Custom(String),
}

/// The `journal_mode` PRAGMA value a mode renders to.
pub open spec fn journal_mode_text(mode: TursoJournalMode, is_memory: bool) -> Seq<char> {
    match mode {
        TursoJournalMode::Auto => if is_memory {
            "MEMORY"@
        } else {
            "WAL"@
        },
        TursoJournalMode::Delete => "DELETE"@,
        TursoJournalMode::Truncate => "TRUNCATE"@,
        TursoJournalMode::Persist => "PERSIST"@,
        TursoJournalMode::Memory => "MEMORY"@,
        TursoJournalMode::Wal => "WAL"@,
        TursoJournalMode::Off => "OFF"@,
        TursoJournalMode::Mvcc => "mvcc"@,
        TursoJournalMode::Custom(v) => v@,
    }
}

/// Whether the schema must avoid what Turso's MVCC mode rejects
/// (`AUTOINCREMENT`): the MVCC mode, or a raw value naming it in any case.
pub open spec fn needs_mvcc_schema(mode: TursoJournalMode) -> bool {
    match mode {
        TursoJournalMode::Mvcc => true,
        TursoJournalMode::Custom(v) => text_contains(lower_text(v@), "mvcc"@),
        _ => false,
    }
}

impl TursoJournalMode {
    /// The `journal_mode` PRAGMA value, given whether the database is in memory.
    pub fn pragma_value(&self, is_memory: bool) -> (s: String)
        ensures
            s@ == journal_mode_text(*self, is_memory),
    {
        match self {
            TursoJournalMode::Auto => if is_memory {
                String::from_str("MEMORY")
            } else {
                String::from_str("WAL")
            },
            TursoJournalMode::Delete => String::from_str("DELETE"),
            TursoJournalMode::Truncate => String::from_str("TRUNCATE"),
            TursoJournalMode::Persist => String::from_str("PERSIST"),
            TursoJournalMode::Memory => String::from_str("MEMORY"),
            TursoJournalMode::Wal => String::from_str("WAL"),
            TursoJournalMode::Off => String::from_str("OFF"),
            TursoJournalMode::Mvcc => String::from_str("mvcc"),
            TursoJournalMode::Custom(value) => value.clone(),
        }
    }

    /// Whether the queue tables must be created without `AUTOINCREMENT`.
    pub fn requires_mvcc_schema_compat(&self) -> (b: bool)
        ensures
            b == needs_mvcc_schema(*self),
    {
        match self {
            TursoJournalMode::Mvcc => true,
            TursoJournalMode::Custom(value) => lowercase_contains(value.as_str(), "mvcc"),
            _ => false,
        }
    }
}

impl Default for TursoJournalMode {
    fn default() -> (m: TursoJournalMode)
        ensures
            m == TursoJournalMode::Auto,
    {
        TursoJournalMode::Auto
    }
}

/// Synchronous setting for Turso's SQLite-compatible engine.
#[derive(Debug, Clone, PartialEq, Eq)]
pub enum TursoSynchronous {
    /// `OFF` for in-memory databases and `NORMAL` for file-backed ones.
    Auto,
    Off,
    Normal,
    Full,
    Extra,
    /// Raw PRAGMA value.
    Custom(String),
}

/// The `synchronous` PRAGMA value a setting renders to.
pub open spec fn synchronous_text(mode: TursoSynchronous, is_memory: bool) -> Seq<char> {
    match mode {
        TursoSynchronous::Auto => if is_memory {
            "OFF"@
        } else {
            "NORMAL"@
        },
        TursoSynchronous::Off => "OFF"@,
        TursoSynchronous::Normal => "NORMAL"@,
        TursoSynchronous::Full => "FULL"@,
        TursoSynchronous::Extra => "EXTRA"@,
        TursoSynchronous::Custom(v) => v@,
    }
}

impl TursoSynchronous {
    /// The `synchronous` PRAGMA value, given whether the database is in memory.
    pub fn pragma_value(&self, is_memory: bool) -> (s: String)
        ensures
            s@ == synchronous_text(*self, is_memory),
    {
        match self {
            TursoSynchronous::Auto => if is_memory {
                String::from_str("OFF")
            } else {
                String::from_str("NORMAL")
            },
            TursoSynchronous::Off => String::from_str("OFF"),
            TursoSynchronous::Normal => String::from_str("NORMAL"),
            TursoSynchronous::Full => String::from_str("FULL"),
            TursoSynchronous::Extra => String::from_str("EXTRA"),
            TursoSynchronous::Custom(value) => value.clone(),
        }
    }
}

impl Default for TursoSynchronous {
    fn default() -> (m: TursoSynchronous)
        ensures
            m == TursoSynchronous::Auto,
    {
        TursoSynchronous::Auto
    }
}

/// Transaction mode of the provider's multi-statement operations.
#[derive(Debug, Clone, Copy, PartialEq, Eq, Structural)]
pub enum TursoTransactionMode {
    /// `BEGIN IMMEDIATE`, as the SQLite provider does.
    Immediate,
    /// Turso's optimistic `BEGIN CONCURRENT`; conflicts surface at `COMMIT`
    /// and replay the whole operation.
    Concurrent,
}

/// The statement that opens a transaction in a mode.
pub open spec fn begin_statement_text(mode: TursoTransactionMode) -> Seq<char> {
    match mode {
        TursoTransactionMode::Immediate => "BEGIN IMMEDIATE"@,
        TursoTransactionMode::Concurrent => "BEGIN CONCURRENT"@,
    }
}

impl TursoTransactionMode {
    /// The statement that opens a transaction in this mode.
    pub fn begin_statement(self) -> (s: &'static str)
        ensures
            s@ == begin_statement_text(self),
    {
        match self {
            TursoTransactionMode::Immediate => "BEGIN IMMEDIATE",
            TursoTransactionMode::Concurrent => "BEGIN CONCURRENT",
        }
    }
}

impl Default for TursoTransactionMode {
    fn default() -> (m: TursoTransactionMode)
        ensures
            m == TursoTransactionMode::Immediate,
    {
        TursoTransactionMode::Immediate
    }
}

/// Configuration of the Turso-backed provider.
#[derive(Debug, Clone)]
pub struct TursoOptions {
    /// Number of connections in the local pool, opened eagerly at startup.
    /// Default: 5.
    pub max_connections: usize,
    /// Busy timeout applied to each connection. Default: 60 seconds.
    pub busy_timeout: TimeSpan,
    /// Journal mode PRAGMA. Default: [`TursoJournalMode::Auto`].
    pub journal_mode: TursoJournalMode,
    /// Synchronous PRAGMA. Default: [`TursoSynchronous::Auto`].
    pub synchronous: TursoSynchronous,
    /// WAL checkpoint interval for file-backed databases; `None` skips the
    /// PRAGMA. Default: `Some(10000)`.
    pub wal_autocheckpoint: Option<u32>,
    /// Cache size PRAGMA for file-backed databases (negative values are
    /// kibibytes); `None` skips it. Default: `Some(-64000)`.
    pub cache_size: Option<i64>,
    /// Transaction mode of multi-statement operations.
    /// Default: [`TursoTransactionMode::Immediate`].
    pub transaction_mode: TursoTransactionMode,
    /// Maximum number of whole-operation retries after a concurrent
    /// transaction conflict. Default: 8.
    pub transaction_max_retries: u32,
    /// Backoff before the first retry. Default: 1 millisecond.
    pub transaction_retry_initial_backoff: TimeSpan,
    /// Longest backoff between retries. Default: 50 milliseconds.
    pub transaction_retry_max_backoff: TimeSpan,
    /// Extra lock lifetime taken at the start of an orchestration ack, so the
    /// ack's own duration cannot expire the lock it holds; `None` disables
    /// it. Default: 5 minutes.
    pub ack_lock_extension: Option<TimeSpan>,
}

/// `o` holds the default configuration.
pub open spec fn is_default_options(o: TursoOptions) -> bool {
    &&& o.max_connections == 5
    &&& o.busy_timeout.total_nanos() == 60 * NANOS_PER_SEC
    &&& o.journal_mode == TursoJournalMode::Auto
    &&& o.synchronous == TursoSynchronous::Auto
    &&& o.wal_autocheckpoint == Some(10000u32)
    &&& o.cache_size == Some(-64000i64)
    &&& o.transaction_mode == TursoTransactionMode::Immediate
    &&& o.transaction_max_retries == 8
    &&& o.transaction_retry_initial_backoff.total_nanos() == 1_000_000
    &&& o.transaction_retry_max_backoff.total_nanos() == 50_000_000
    &&& o.ack_lock_extension matches Some(t) && t.total_nanos() == 300 * NANOS_PER_SEC
}

impl Default for TursoOptions {
    fn default() -> (o: TursoOptions)
        ensures
            is_default_options(o),
    {
        TursoOptions {
            max_connections: 5,
            busy_timeout: TimeSpan::from_secs(60),
            journal_mode: TursoJournalMode::Auto,
            synchronous: TursoSynchronous::Auto,
            wal_autocheckpoint: Some(10000),
            cache_size: Some(-64000),
            transaction_mode: TursoTransactionMode::Immediate,
            transaction_max_retries: 8,
            transaction_retry_initial_backoff: TimeSpan::from_millis(1),
            transaction_retry_max_backoff: TimeSpan::from_millis(50),
            ack_lock_extension: Some(TimeSpan::from_secs(300)),
        }
    }
}

/// Builder for [`TursoOptions`], starting from the defaults.
#[derive(Debug, Clone)]
pub struct TursoOptionsBuilder {
    options: TursoOptions,
}

impl TursoOptions {
    /// A builder holding the default configuration.
    pub fn builder() -> (b: TursoOptionsBuilder)
        ensures
            is_default_options(b.current()),
    {
        TursoOptionsBuilder { options: TursoOptions::default() }
    }
}

impl Default for TursoOptionsBuilder {
    fn default() -> (b: TursoOptionsBuilder)
        ensures
            is_default_options(b.current()),
    {
        TursoOptions::builder()
    }
}

impl TursoOptionsBuilder {
    /// The configuration built so far.
    pub closed spec fn current(&self) -> TursoOptions {
        self.options
    }

    /// Sets the pool size.
    pub fn max_connections(self, max_connections: usize) -> (b: TursoOptionsBuilder)
        ensures
            b.current() == (TursoOptions { max_connections, ..self.current() }),
    {
        let mut b = self;
        b.options.max_connections = max_connections;
        b
    }

    /// Sets the busy timeout of each connection.
    pub fn busy_timeout(self, busy_timeout: TimeSpan) -> (b: TursoOptionsBuilder)
        ensures
            b.current() == (TursoOptions { busy_timeout, ..self.current() }),
    {
        let mut b = self;
        b.options.busy_timeout = busy_timeout;
        b
    }

    /// Sets the journal mode PRAGMA.
    pub fn journal_mode(self, journal_mode: TursoJournalMode) -> (b: TursoOptionsBuilder)
        ensures
            b.current() == (TursoOptions { journal_mode, ..self.current() }),
    {
        let mut b = self;
        b.options.journal_mode = journal_mode;
        b
    }

    /// Sets the synchronous PRAGMA.
    pub fn synchronous(self, synchronous: TursoSynchronous) -> (b: TursoOptionsBuilder)
        ensures
            b.current() == (TursoOptions { synchronous, ..self.current() }),
    {
        let mut b = self;
        b.options.synchronous = synchronous;
        b
    }

    /// Sets or disables WAL auto-checkpointing.
    pub fn wal_autocheckpoint(self, wal_autocheckpoint: Option<u32>) -> (b: TursoOptionsBuilder)
        ensures
            b.current() == (TursoOptions { wal_autocheckpoint, ..self.current() }),
    {
        let mut b = self;
        b.options.wal_autocheckpoint = wal_autocheckpoint;
        b
    }

    /// Sets or disables the cache size PRAGMA.
    pub fn cache_size(self, cache_size: Option<i64>) -> (b: TursoOptionsBuilder)
        ensures
            b.current() == (TursoOptions { cache_size, ..self.current() }),
    {
        let mut b = self;
        b.options.cache_size = cache_size;
        b
    }

    /// Sets the transaction mode of multi-statement operations.
    pub fn transaction_mode(self, transaction_mode: TursoTransactionMode) -> (b: TursoOptionsBuilder)
        ensures
            b.current() == (TursoOptions { transaction_mode, ..self.current() }),
    {
        let mut b = self;
        b.options.transaction_mode = transaction_mode;
        b
    }

    /// Sets the maximum number of whole-operation retries.
    pub fn transaction_max_retries(self, transaction_max_retries: u32) -> (b: TursoOptionsBuilder)
        ensures
            b.current() == (TursoOptions { transaction_max_retries, ..self.current() }),
    {
        let mut b = self;
        b.options.transaction_max_retries = transaction_max_retries;
        b
    }

    /// Sets the backoff before the first retry.
    pub fn transaction_retry_initial_backoff(self, transaction_retry_initial_backoff: TimeSpan) -> (b:
        TursoOptionsBuilder)
        ensures
            b.current() == (TursoOptions { transaction_retry_initial_backoff, ..self.current() }),
    {
        let mut b = self;
        b.options.transaction_retry_initial_backoff = transaction_retry_initial_backoff;
        b
    }

    /// Sets the longest backoff between retries.
    pub fn transaction_retry_max_backoff(self, transaction_retry_max_backoff: TimeSpan) -> (b:
        TursoOptionsBuilder)
        ensures
            b.current() == (TursoOptions { transaction_retry_max_backoff, ..self.current() }),
    {
        let mut b = self;
        b.options.transaction_retry_max_backoff = transaction_retry_max_backoff;
        b
    }

    /// Sets or disables the ack lock extension.
    pub fn ack_lock_extension(self, ack_lock_extension: Option<TimeSpan>) -> (b: TursoOptionsBuilder)
        ensures
            b.current() == (TursoOptions { ack_lock_extension, ..self.current() }),
    {
        let mut b = self;
        b.options.ack_lock_extension = ack_lock_extension;
        b
    }

    /// The configuration built.
    pub fn build(self) -> (o: TursoOptions)
        ensures
            o == self.current(),
    {
        self.options
    }
}


/// Only the automatic journal and synchronous settings depend on whether the
/// database is in memory; every other setting renders the same either way.
pub proof fn lemma_only_auto_depends_on_memory(journal: TursoJournalMode, synchronous: TursoSynchronous)
    ensures
        !(journal is Auto) ==> journal_mode_text(journal, true) == journal_mode_text(journal, false),
        !(synchronous is Auto) ==> synchronous_text(synchronous, true) == synchronous_text(
            synchronous,
            false,
        ),
        journal_mode_text(TursoJournalMode::Auto, true) != journal_mode_text(TursoJournalMode::Auto, false),
        synchronous_text(TursoSynchronous::Auto, true) != synchronous_text(TursoSynchronous::Auto, false),
{
    reveal_strlit("MEMORY");
    reveal_strlit("WAL");
    reveal_strlit("OFF");
    reveal_strlit("NORMAL");
    assert("MEMORY"@.len() != "WAL"@.len());
    assert("OFF"@.len() != "NORMAL"@.len());
}

/// A raw journal mode spelled like the MVCC mode's own PRAGMA value, in any
/// ASCII case, gets the MVCC-compatible schema too.
pub proof fn lemma_custom_mvcc_spelling_gets_mvcc_schema(value: String)
    requires
        lower_text(value@) == journal_mode_text(TursoJournalMode::Mvcc, false),
    ensures
        needs_mvcc_schema(TursoJournalMode::Custom(value)),
        needs_mvcc_schema(TursoJournalMode::Mvcc),
{
    reveal_strlit("mvcc");
    let l = lower_text(value@);
    assert(l.subrange(0, 4) =~= "mvcc"@);
    assert(crate::text::occurs_at(l, "mvcc"@, 0));
}


/// The automatic settings pick, for an in-memory database, what the explicit
/// in-memory journal and the unsynced setting render to, and for a
/// file-backed database, what the write-ahead log and the normal
/// synchronous setting render to.
pub proof fn lemma_auto_picks_storage_defaults()
    ensures
        journal_mode_text(TursoJournalMode::Auto, true) == journal_mode_text(TursoJournalMode::Memory, true),
        journal_mode_text(TursoJournalMode::Auto, false) == journal_mode_text(TursoJournalMode::Wal, false),
        synchronous_text(TursoSynchronous::Auto, true) == synchronous_text(TursoSynchronous::Off, true),
        synchronous_text(TursoSynchronous::Auto, false) == synchronous_text(TursoSynchronous::Normal, false),
        forall|v: String, m: bool| journal_mode_text(TursoJournalMode::Custom(v), m) == v@,
        forall|v: String, m: bool| synchronous_text(TursoSynchronous::Custom(v), m) == v@,
{
}

} // verus!
