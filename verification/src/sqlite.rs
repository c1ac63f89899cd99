//! Decisions of the sqlx-backed SQLite provider: whether a URL designates an
//! in-memory database, the PRAGMAs every new connection runs, and how the
//! schema is brought up.

use vstd::prelude::*;

use crate::text::{contains_text, text_contains};

verus! {

/// Configuration of the SQLite provider (it has no provider-specific
/// options).
#[derive(Debug, Clone)]
pub struct SqliteOptions {}

impl Default for SqliteOptions {
    fn default() -> (o: SqliteOptions) {
        SqliteOptions {  }
    }
}

/// The URL designates an in-memory SQLite database.
pub open spec fn is_memory_url(url: Seq<char>) -> bool {
    text_contains(url, ":memory:"@) || text_contains(url, "mode=memory"@)
}

/// Whether `database_url` designates an in-memory SQLite database.
pub fn is_in_memory_url(database_url: &str) -> (b: bool)
    ensures
        b == is_memory_url(database_url@),
{
    contains_text(database_url, ":memory:") || contains_text(database_url, "mode=memory")
}

/// The PRAGMAs each new connection runs, in order.
pub open spec fn connection_pragma_texts(is_memory: bool) -> Seq<Seq<char>> {
    if is_memory {
        seq![
            "PRAGMA journal_mode = MEMORY"@,
            "PRAGMA synchronous = OFF"@,
            "PRAGMA busy_timeout = 60000"@,
            "PRAGMA foreign_keys = ON"@,
        ]
    } else {
        seq![
            "PRAGMA journal_mode = WAL"@,
            "PRAGMA synchronous = WAL"@,
            "PRAGMA wal_autocheckpoint = 10000"@,
            "PRAGMA cache_size = -64000"@,
            "PRAGMA busy_timeout = 60000"@,
            "PRAGMA foreign_keys = ON"@,
        ]
    }
}

/// A file-backed connection uses the write-ahead log and never the in-memory
/// journal, with a larger checkpoint interval and cache; an in-memory
/// connection uses the in-memory journal without syncing and never the
/// write-ahead log. Both wait up to 60 seconds on locks and enforce foreign
/// keys, as their last two PRAGMAs.
pub proof fn lemma_connection_pragmas_by_storage()
    ensures
        connection_pragma_texts(false).contains("PRAGMA journal_mode = WAL"@),
        !connection_pragma_texts(false).contains("PRAGMA journal_mode = MEMORY"@),
        connection_pragma_texts(false).contains("PRAGMA wal_autocheckpoint = 10000"@),
        connection_pragma_texts(false).contains("PRAGMA cache_size = -64000"@),
        connection_pragma_texts(false)[0] == "PRAGMA journal_mode = WAL"@,
        connection_pragma_texts(true).contains("PRAGMA journal_mode = MEMORY"@),
        connection_pragma_texts(true).contains("PRAGMA synchronous = OFF"@),
        !connection_pragma_texts(true).contains("PRAGMA journal_mode = WAL"@),
        connection_pragma_texts(true)[0] == "PRAGMA journal_mode = MEMORY"@,
        forall|m: bool|
            connection_pragma_texts(m).len() >= 2 && connection_pragma_texts(m).last()
                == "PRAGMA foreign_keys = ON"@ && connection_pragma_texts(m)[connection_pragma_texts(
                m,
            ).len() - 2] == "PRAGMA busy_timeout = 60000"@,
{
    reveal_strlit("PRAGMA journal_mode = MEMORY");
    reveal_strlit("PRAGMA synchronous = OFF");
    reveal_strlit("PRAGMA busy_timeout = 60000");
    reveal_strlit("PRAGMA foreign_keys = ON");
    reveal_strlit("PRAGMA journal_mode = WAL");
    reveal_strlit("PRAGMA synchronous = WAL");
    reveal_strlit("PRAGMA wal_autocheckpoint = 10000");
    reveal_strlit("PRAGMA cache_size = -64000");
    let file = connection_pragma_texts(false);
    let mem = connection_pragma_texts(true);
    assert(file[0] == "PRAGMA journal_mode = WAL"@);
    assert(file[2] == "PRAGMA wal_autocheckpoint = 10000"@);
    assert(file[3] == "PRAGMA cache_size = -64000"@);
    assert(mem[0] == "PRAGMA journal_mode = MEMORY"@);
    assert(mem[1] == "PRAGMA synchronous = OFF"@);
    assert forall|i: int| 0 <= i < file.len() implies file[i].len() != "PRAGMA journal_mode = MEMORY"@.len() by {}
    assert forall|i: int| 0 <= i < mem.len() implies mem[i] != "PRAGMA journal_mode = WAL"@ by {
        assert(mem[i].len() != "PRAGMA journal_mode = WAL"@.len());
    }
}

/// Views of a sequence of static texts.
pub open spec fn static_texts_view(v: Seq<&'static str>) -> Seq<Seq<char>> {
    v.map_values(|s: &'static str| s@)
}

/// The PRAGMAs each new connection runs: an in-memory database trades
/// durability for speed; a file database uses the write-ahead log with a
/// larger checkpoint interval and cache. Both wait up to 60 seconds on locks
/// and enforce foreign keys.
pub fn connection_pragmas(is_memory: bool) -> (v: Vec<&'static str>)
    ensures
        static_texts_view(v@) == connection_pragma_texts(is_memory),
{
    let mut v: Vec<&'static str> = Vec::new();
    if is_memory {
        v.push("PRAGMA journal_mode = MEMORY");
        v.push("PRAGMA synchronous = OFF");
    } else {
        v.push("PRAGMA journal_mode = WAL");
        v.push("PRAGMA synchronous = WAL");
        v.push("PRAGMA wal_autocheckpoint = 10000");
        v.push("PRAGMA cache_size = -64000");
    }
    v.push("PRAGMA busy_timeout = 60000");
    v.push("PRAGMA foreign_keys = ON");
    assert(static_texts_view(v@) =~= connection_pragma_texts(is_memory));
    v
}

/// Connections in the SQLite provider's pool.
pub fn max_connections() -> (n: u32)
    ensures
        n == 5,
{
    5
}

/// How the schema of a new store is brought up.
#[derive(Debug, Clone, Copy, PartialEq, Eq, Structural)]
pub enum SchemaSetup {
    /// Create the tables directly.
    CreateDirectly,
    /// Run the migrations, and create the tables directly if they fail.
    MigrateThenCreate,
}

/// An in-memory database gets its tables directly; a file database goes
/// through the migrations first.
pub fn schema_setup(database_url: &str) -> (s: SchemaSetup)
    ensures
        s == (if is_memory_url(database_url@) {
            SchemaSetup::CreateDirectly
        } else {
            SchemaSetup::MigrateThenCreate
        }),
{
    if is_in_memory_url(database_url) {
        SchemaSetup::CreateDirectly
    } else {
        SchemaSetup::MigrateThenCreate
    }
}

/// The URL of a shared in-memory database, so that every pooled connection
/// sees the same data.
pub fn in_memory_url() -> (s: &'static str)
    ensures
        s@ == "sqlite::memory:?cache=shared"@,
        is_memory_url(s@),
{
    proof {
        reveal_strlit("sqlite::memory:?cache=shared");
        reveal_strlit(":memory:");
        let url = "sqlite::memory:?cache=shared"@;
        let pat = ":memory:"@;
        assert(url[7] == pat[0]);
        assert(url[8] == pat[1]);
        assert(url[9] == pat[2]);
        assert(url[10] == pat[3]);
        assert(url[11] == pat[4]);
        assert(url[12] == pat[5]);
        assert(url[13] == pat[6]);
        assert(url[14] == pat[7]);
        assert(url.subrange(7, 15) =~= pat);
        assert(crate::text::occurs_at(url, pat, 7));
    }
    "sqlite::memory:?cache=shared"
}

} // verus!
