//! Decisions of the Turso-backed provider: which database a URL designates,
//! how its pool and PRAGMAs are set up, and when and after how long a
//! conflicted concurrent transaction is replayed.

use vstd::prelude::*;

use crate::options::{
    begin_statement_text, journal_mode_text, needs_mvcc_schema, synchronous_text,
    TursoJournalMode, TursoOptions, TursoSynchronous, TursoTransactionMode,
};
use crate::pool::PoolOptions;
use crate::text::{
    concat2, contains_text, decimal, has_prefix, i64_to_decimal, signed_decimal, strip_prefix,
    text_contains, text_eq, u32_to_decimal,
};
use crate::timespan::{TimeSpan, MAX_NANOS};

verus! {

// ---------------------------------------------------------------------------
// Database location
// ---------------------------------------------------------------------------

/// The local path a database URL designates: `":memory:"` for any in-memory
/// spelling, otherwise the URL without a leading `turso:` or `sqlite:`.
pub open spec fn normalized_path(url: Seq<char>) -> Seq<char> {
    if url == ":memory:"@ || url == "turso::memory:"@ || url == "sqlite::memory:"@ || text_contains(
        url,
        "mode=memory"@,
    ) {
        ":memory:"@
    } else if has_prefix(url, "turso:"@) {
        url.subrange(6, url.len() as int)
    } else if has_prefix(url, "sqlite:"@) {
        url.subrange(7, url.len() as int)
    } else {
        url
    }
}

/// The local path a database URL designates.
pub fn normalize_database_path(database_url: &str) -> (p: String)
    ensures
        p@ == normalized_path(database_url@),
{
    proof {
        reveal_strlit("turso:");
        reveal_strlit("sqlite:");
    }
    if text_eq(database_url, ":memory:") || text_eq(database_url, "turso::memory:") || text_eq(
        database_url,
        "sqlite::memory:",
    ) || contains_text(database_url, "mode=memory") {
        return String::from_str(":memory:");
    }
    match strip_prefix(database_url, "turso:") {
        Some(rest) => rest,
        None => match strip_prefix(database_url, "sqlite:") {
            Some(rest) => rest,
            None => String::from_str(database_url),
        },
    }
}

// ---------------------------------------------------------------------------
// Transaction retry policy
// ---------------------------------------------------------------------------

/// `2^k`.
pub open spec fn power_of_two(k: nat) -> nat
    decreases k,
{
    if k == 0 {
        1
    } else {
        2 * power_of_two((k - 1) as nat)
    }
}

/// The backoff multiplier after `retry_count` retries: doubling per retry,
/// capped after ten.
pub open spec fn backoff_multiplier(retry_count: u32) -> nat {
    if retry_count <= 10 {
        power_of_two(retry_count as nat)
    } else {
        power_of_two(10)
    }
}

/// Nanoseconds of backoff before the retry that follows `retry_count`
/// retries: the initial backoff times the multiplier (saturating at the
/// longest span), capped at the maximum backoff.
pub open spec fn backoff_nanos(initial: nat, max: nat, retry_count: u32) -> nat {
    let scaled = if initial * backoff_multiplier(retry_count) <= MAX_NANOS {
        initial * backoff_multiplier(retry_count)
    } else {
        MAX_NANOS as nat
    };
    if scaled <= max {
        scaled
    } else {
        max
    }
}

/// A provider error that should replay a concurrent transaction: retries
/// are only taken in concurrent mode, while fewer than the maximum have been
/// taken, and for retryable errors raised by a Turso transaction conflict.
pub open spec fn retry_decision(
    mode: TursoTransactionMode,
    max_retries: u32,
    error_is_retryable: bool,
    error_message: Seq<char>,
    retry_count: u32,
) -> bool {
    &&& mode == TursoTransactionMode::Concurrent
    &&& retry_count < max_retries
    &&& error_is_retryable
    &&& text_contains(error_message, "Turso transaction retry"@)
}

/// The provider's settings other than its connection pool.
#[derive(Debug, Clone, Copy)]
pub struct TursoProviderSettings {
    pub transaction_mode: TursoTransactionMode,
    pub transaction_max_retries: u32,
    pub transaction_retry_initial_backoff: TimeSpan,
    pub transaction_retry_max_backoff: TimeSpan,
    pub ack_lock_extension: Option<TimeSpan>,
}

impl TursoProviderSettings {
    /// The settings a provider takes from its options.
    pub fn from_options(options: &TursoOptions) -> (s: TursoProviderSettings)
        ensures
            s.transaction_mode == options.transaction_mode,
            s.transaction_max_retries == options.transaction_max_retries,
            s.transaction_retry_initial_backoff == options.transaction_retry_initial_backoff,
            s.transaction_retry_max_backoff == options.transaction_retry_max_backoff,
            s.ack_lock_extension == options.ack_lock_extension,
    {
        TursoProviderSettings {
            transaction_mode: options.transaction_mode,
            transaction_max_retries: options.transaction_max_retries,
            transaction_retry_initial_backoff: options.transaction_retry_initial_backoff,
            transaction_retry_max_backoff: options.transaction_retry_max_backoff,
            ack_lock_extension: options.ack_lock_extension,
        }
    }

    /// Whether an operation that failed with a provider error (retryable or
    /// not, and its message) after `retry_count` retries should be replayed.
    pub fn should_retry_transaction_operation(
        &self,
        error_is_retryable: bool,
        error_message: &str,
        retry_count: u32,
    ) -> (b: bool)
        ensures
            b == retry_decision(
                self.transaction_mode,
                self.transaction_max_retries,
                error_is_retryable,
                error_message@,
                retry_count,
            ),
    {
        self.transaction_mode == TursoTransactionMode::Concurrent && retry_count
            < self.transaction_max_retries && error_is_retryable && contains_text(
            error_message,
            "Turso transaction retry",
        )
    }

    /// How long to wait before the retry that follows `retry_count` retries.
    pub fn transaction_retry_backoff(&self, retry_count: u32) -> (t: TimeSpan)
        ensures
            t.total_nanos() == backoff_nanos(
                self.transaction_retry_initial_backoff.total_nanos(),
                self.transaction_retry_max_backoff.total_nanos(),
                retry_count,
            ),
    {
        let shift: u32 = if retry_count < 10 { retry_count } else { 10 };
        let mut multiplier: u32 = 1;
        let mut i: u32 = 0;
        while i < shift
            invariant
                shift <= 10,
                i <= shift,
                multiplier == power_of_two(i as nat),
                multiplier <= 1024,
            decreases shift - i,
        {
            proof {
                lemma_power_of_two_monotone(i as nat + 1, 10);
            }
            multiplier = multiplier * 2;
            i = i + 1;
        }
        self.transaction_retry_initial_backoff.saturating_mul(multiplier).min(
            self.transaction_retry_max_backoff,
        )
    }
}

proof fn lemma_power_of_two_monotone(a: nat, b: nat)
    requires
        a <= b,
    ensures
        power_of_two(a) <= power_of_two(b),
        power_of_two(10) == 1024,
    decreases b,
{
    reveal_with_fuel(power_of_two, 11);
    if a < b {
        lemma_power_of_two_monotone(a, (b - 1) as nat);
    }
}

/// The backoff before any retry never exceeds the configured maximum.
pub proof fn lemma_backoff_at_most_max(initial: nat, max: nat, retry_count: u32)
    ensures
        backoff_nanos(initial, max, retry_count) <= max,
{
}

/// Backoff never shrinks as retries accumulate.
pub proof fn lemma_backoff_monotone(initial: nat, max: nat, earlier: u32, later: u32)
    requires
        earlier <= later,
    ensures
        backoff_nanos(initial, max, earlier) <= backoff_nanos(initial, max, later),
{
    let a: nat = if earlier <= 10 { earlier as nat } else { 10 };
    let b: nat = if later <= 10 { later as nat } else { 10 };
    lemma_power_of_two_monotone(a, b);
    let ma = backoff_multiplier(earlier);
    let mb = backoff_multiplier(later);
    assert(initial * ma <= initial * mb) by (nonlinear_arith)
        requires
            ma <= mb,
    ;
}

/// The first retry waits the initial backoff (capped at the maximum), and
/// from the tenth retry on the backoff stops growing.
pub proof fn lemma_backoff_start_and_plateau(initial: nat, max: nat, retry_count: u32)
    requires
        initial <= MAX_NANOS,
    ensures
        backoff_nanos(initial, max, 0) == if initial <= max {
            initial
        } else {
            max
        },
        retry_count >= 10 ==> backoff_nanos(initial, max, retry_count) == backoff_nanos(initial, max, 10),
{
    assert(backoff_multiplier(0) == 1);
    assert(initial * 1 == initial);
}

/// Replays only happen in concurrent mode, and never once the retry budget
/// is spent; so an operation runs at most `max_retries + 1` times.
pub proof fn lemma_retries_bounded(
    mode: TursoTransactionMode,
    max_retries: u32,
    error_is_retryable: bool,
    error_message: Seq<char>,
    retry_count: u32,
)
    ensures
        mode == TursoTransactionMode::Immediate ==> !retry_decision(
            mode,
            max_retries,
            error_is_retryable,
            error_message,
            retry_count,
        ),
        retry_count >= max_retries ==> !retry_decision(
            mode,
            max_retries,
            error_is_retryable,
            error_message,
            retry_count,
        ),
        !error_is_retryable ==> !retry_decision(
            mode,
            max_retries,
            error_is_retryable,
            error_message,
            retry_count,
        ),
{
}


// ---------------------------------------------------------------------------
// Opening a store
// ---------------------------------------------------------------------------

/// The options a store is opened with: the given ones, or the defaults.
pub fn effective_options(options: Option<TursoOptions>) -> (o: TursoOptions)
    ensures
        options matches Some(given) ==> o == given,
        options is None ==> crate::options::is_default_options(o),
{
    match options {
        Some(o) => o,
        None => TursoOptions::default(),
    }
}

/// The PRAGMAs tried on every connection whose failure is tolerated, in
/// order: journal mode and synchronous setting, then, for file-backed
/// databases only, the WAL checkpoint interval and the cache size when set.
pub open spec fn optional_pragma_texts(o: TursoOptions, is_memory: bool) -> Seq<Seq<char>> {
    let base = seq![
        "PRAGMA journal_mode = "@ + journal_mode_text(o.journal_mode, is_memory),
        "PRAGMA synchronous = "@ + synchronous_text(o.synchronous, is_memory),
    ];
    let with_wal = match o.wal_autocheckpoint {
        Some(w) if !is_memory => base.push("PRAGMA wal_autocheckpoint = "@ + decimal(w as nat)),
        _ => base,
    };
    match o.cache_size {
        Some(c) if !is_memory => with_wal.push("PRAGMA cache_size = "@ + signed_decimal(c as int)),
        _ => with_wal,
    }
}

/// The queue table's id column: without `AUTOINCREMENT` where the journal
/// mode is Turso's MVCC, which rejects it.
pub open spec fn queue_id_column_text(mode: TursoJournalMode) -> Seq<char> {
    if needs_mvcc_schema(mode) {
        "id INTEGER PRIMARY KEY"@
    } else {
        "id INTEGER PRIMARY KEY AUTOINCREMENT"@
    }
}

/// Views of a sequence of strings.
pub open spec fn texts_view(v: Seq<String>) -> Seq<Seq<char>> {
    v.map_values(|s: String| s@)
}

/// What opening a Turso-backed store does, decided before any I/O: the pool
/// to open on which path, the PRAGMAs to try, the PRAGMA that must succeed,
/// the shape of the queue tables, and the settings the provider keeps.
pub struct TursoSetupPlan {
    pub database_path: String,
    pub is_memory: bool,
    pub pool: PoolOptions,
    pub optional_pragmas: Vec<String>,
    pub required_pragma: &'static str,
    pub queue_id_column: &'static str,
    pub settings: TursoProviderSettings,
}

/// Plans opening the store at `database_url` with `options`.
pub fn plan_turso_setup(database_url: &str, options: &TursoOptions) -> (plan: TursoSetupPlan)
    ensures
        plan.database_path@ == normalized_path(database_url@),
        plan.is_memory == (normalized_path(database_url@) == ":memory:"@),
        plan.pool.max_connections == options.max_connections,
        plan.pool.busy_timeout == options.busy_timeout,
        plan.pool.begin_statement@ == begin_statement_text(options.transaction_mode),
        texts_view(plan.optional_pragmas@) == optional_pragma_texts(*options, plan.is_memory),
        plan.required_pragma@ == "PRAGMA foreign_keys = ON"@,
        plan.queue_id_column@ == queue_id_column_text(options.journal_mode),
        plan.settings == TursoProviderSettings::from_options_spec(*options),
{
    let database_path = normalize_database_path(database_url);
    let is_memory = text_eq(database_path.as_str(), ":memory:");
    let mut pragmas: Vec<String> = Vec::new();
    let journal = options.journal_mode.pragma_value(is_memory);
    pragmas.push(concat2("PRAGMA journal_mode = ", journal.as_str()));
    let synchronous = options.synchronous.pragma_value(is_memory);
    pragmas.push(concat2("PRAGMA synchronous = ", synchronous.as_str()));
    if !is_memory {
        if let Some(w) = options.wal_autocheckpoint {
            let text = u32_to_decimal(w);
            pragmas.push(concat2("PRAGMA wal_autocheckpoint = ", text.as_str()));
        }
        if let Some(c) = options.cache_size {
            let text = i64_to_decimal(c);
            pragmas.push(concat2("PRAGMA cache_size = ", text.as_str()));
        }
    }
    assert(texts_view(pragmas@) =~= optional_pragma_texts(*options, is_memory));
    let queue_id_column = if options.journal_mode.requires_mvcc_schema_compat() {
        "id INTEGER PRIMARY KEY"
    } else {
        "id INTEGER PRIMARY KEY AUTOINCREMENT"
    };
    TursoSetupPlan {
        database_path,
        is_memory,
        pool: PoolOptions {
            max_connections: options.max_connections,
            busy_timeout: options.busy_timeout,
            begin_statement: options.transaction_mode.begin_statement(),
        },
        optional_pragmas: pragmas,
        required_pragma: "PRAGMA foreign_keys = ON",
        queue_id_column,
        settings: TursoProviderSettings::from_options(options),
    }
}

proof fn lemma_differs_at(lit: Seq<char>, rest: Seq<char>, prefix: Seq<char>, k: int)
    requires
        0 <= k < lit.len(),
        k < prefix.len(),
        lit[k] != prefix[k],
    ensures
        !has_prefix(lit + rest, prefix),
{
    if has_prefix(lit + rest, prefix) {
        assert((lit + rest).subrange(0, prefix.len() as int)[k] == prefix[k]);
        assert((lit + rest)[k] == lit[k]);
    }
}

/// For a file-backed database, the PRAGMAs tried follow the options field by
/// field: a cache size PRAGMA is tried exactly when a cache size is set (with
/// that size), whether or not a WAL checkpoint interval is set, and a WAL
/// checkpoint PRAGMA exactly when an interval is set (with that interval),
/// whether or not a cache size is set; journal mode and synchronous setting
/// always come first. An in-memory database gets only those two.
pub proof fn lemma_file_pragmas_follow_options(o: TursoOptions)
    ensures
        o.cache_size matches Some(c) ==> optional_pragma_texts(o, false).contains(
            "PRAGMA cache_size = "@ + signed_decimal(c as int),
        ),
        o.cache_size is None ==> forall|i: int|
            0 <= i < optional_pragma_texts(o, false).len() ==> !has_prefix(
                #[trigger] optional_pragma_texts(o, false)[i],
                "PRAGMA cache_size"@,
            ),
        o.wal_autocheckpoint matches Some(w) ==> optional_pragma_texts(o, false).contains(
            "PRAGMA wal_autocheckpoint = "@ + decimal(w as nat),
        ),
        o.wal_autocheckpoint is None ==> forall|i: int|
            0 <= i < optional_pragma_texts(o, false).len() ==> !has_prefix(
                #[trigger] optional_pragma_texts(o, false)[i],
                "PRAGMA wal_autocheckpoint"@,
            ),
        optional_pragma_texts(o, false).len() == 2 + (if o.wal_autocheckpoint is Some {
            1int
        } else {
            0
        }) + (if o.cache_size is Some {
            1int
        } else {
            0
        }),
        optional_pragma_texts(o, false)[0] == "PRAGMA journal_mode = "@ + journal_mode_text(
            o.journal_mode,
            false,
        ),
        optional_pragma_texts(o, false)[1] == "PRAGMA synchronous = "@ + synchronous_text(
            o.synchronous,
            false,
        ),
        optional_pragma_texts(o, true) == seq![
            "PRAGMA journal_mode = "@ + journal_mode_text(o.journal_mode, true),
            "PRAGMA synchronous = "@ + synchronous_text(o.synchronous, true),
        ],
{
    reveal_strlit("PRAGMA journal_mode = ");
    reveal_strlit("PRAGMA synchronous = ");
    reveal_strlit("PRAGMA wal_autocheckpoint = ");
    reveal_strlit("PRAGMA cache_size = ");
    reveal_strlit("PRAGMA cache_size");
    reveal_strlit("PRAGMA wal_autocheckpoint");
    let t = optional_pragma_texts(o, false);
    let j = "PRAGMA journal_mode = "@;
    let sy = "PRAGMA synchronous = "@;
    let wa = "PRAGMA wal_autocheckpoint = "@;
    let ca = "PRAGMA cache_size = "@;
    let pc = "PRAGMA cache_size"@;
    let pw = "PRAGMA wal_autocheckpoint"@;
    assert(j[7] == 'j' && sy[7] == 's' && wa[7] == 'w' && ca[7] == 'c');
    assert(pc[7] == 'c' && pw[7] == 'w');
    if o.cache_size is None {
        assert forall|i: int| 0 <= i < t.len() implies !has_prefix(#[trigger] t[i], pc) by {
            if i == 0 {
                lemma_differs_at(j, journal_mode_text(o.journal_mode, false), pc, 7);
            } else if i == 1 {
                lemma_differs_at(sy, synchronous_text(o.synchronous, false), pc, 7);
            } else {
                lemma_differs_at(wa, decimal(o.wal_autocheckpoint->0 as nat), pc, 7);
            }
        }
    }
    if o.wal_autocheckpoint is None {
        assert forall|i: int| 0 <= i < t.len() implies !has_prefix(#[trigger] t[i], pw) by {
            if i == 0 {
                lemma_differs_at(j, journal_mode_text(o.journal_mode, false), pw, 7);
            } else if i == 1 {
                lemma_differs_at(sy, synchronous_text(o.synchronous, false), pw, 7);
            } else {
                lemma_differs_at(ca, signed_decimal(o.cache_size->0 as int), pw, 7);
            }
        }
    }
    if o.cache_size is Some {
        assert(t[t.len() - 1] == ca + signed_decimal(o.cache_size->0 as int));
    }
    if o.wal_autocheckpoint is Some {
        assert(t[2] == wa + decimal(o.wal_autocheckpoint->0 as nat));
    }
}

impl TursoProviderSettings {
    /// The settings a provider takes from its options.
    pub open spec fn from_options_spec(options: TursoOptions) -> TursoProviderSettings {
        TursoProviderSettings {
            transaction_mode: options.transaction_mode,
            transaction_max_retries: options.transaction_max_retries,
            transaction_retry_initial_backoff: options.transaction_retry_initial_backoff,
            transaction_retry_max_backoff: options.transaction_retry_max_backoff,
            ack_lock_extension: options.ack_lock_extension,
        }
    }
}

/// Every URL spelling of an in-memory database designates the same path,
/// `":memory:"`.
pub proof fn lemma_memory_spellings_agree()
    ensures
        normalized_path(":memory:"@) == ":memory:"@,
        normalized_path("turso::memory:"@) == ":memory:"@,
        normalized_path("sqlite::memory:"@) == ":memory:"@,
{
}


/// A URL is normalised to `":memory:"` or to itself with at most a leading
/// `turso:` or `sqlite:` removed. A `turso:` URL that spells no in-memory
/// database designates what follows the scheme; a URL with neither scheme
/// that spells no in-memory database designates itself; any URL asking for
/// `mode=memory` designates `":memory:"`.
pub proof fn lemma_normalized_path_shape(url: Seq<char>)
    ensures
        normalized_path(url) == ":memory:"@ || url == normalized_path(url) || url == "turso:"@
            + normalized_path(url) || url == "sqlite:"@ + normalized_path(url),
        text_contains(url, "mode=memory"@) ==> normalized_path(url) == ":memory:"@,
        has_prefix(url, "turso:"@) && !text_contains(url, "mode=memory"@) && url != "turso::memory:"@
            ==> normalized_path(url) == url.subrange(6, url.len() as int),
        !has_prefix(url, "turso:"@) && !has_prefix(url, "sqlite:"@) && !text_contains(
            url,
            "mode=memory"@,
        ) && url != ":memory:"@ && url != "turso::memory:"@ && url != "sqlite::memory:"@
            ==> normalized_path(url) == url,
{
    reveal_strlit("turso:");
    reveal_strlit("sqlite:");
    reveal_strlit(":memory:");
    reveal_strlit("sqlite::memory:");
    let t = "turso:"@;
    let sq = "sqlite:"@;
    assert(t[0] == 't' && ":memory:"@[0] == ':' && "sqlite::memory:"@[0] == 's');
    if has_prefix(url, t) {
        assert(url[0] == t[0]);
        assert(url != ":memory:"@);
        assert(url != "sqlite::memory:"@);
        assert(url =~= t + url.subrange(6, url.len() as int));
    } else if has_prefix(url, sq) {
        assert(url =~= sq + url.subrange(7, url.len() as int));
    }
}

} // verus!
