//! Errors of the query layer: a model of the Turso SDK's error values and the
//! layer's own error type, with the classifications the provider relies on.

use vstd::prelude::*;

use crate::text::{ascii_lower, lower_text, lowercase_contains, occurs_at, text_contains};

verus! {

/// The variant of a Turso SDK error (`turso::Error`).
#[derive(Debug, Clone, Copy, PartialEq, Eq, Structural)]
pub enum TursoErrorKind {
    ToSqlConversionFailure,
    QueryReturnedNoRows,
    ConversionFailure,
    Busy,
    BusySnapshot,
    Interrupt,
    Error,
    Misuse,
    Constraint,
    Readonly,
    DatabaseFull,
    NotAdb,
    Corrupt,
    IoError,
}

/// A Turso SDK error held as plain values: its variant, the text the variant
/// carries (for `IoError`, the I/O error kind as displayed) and, for
/// `IoError` only, the name of the failed operation.
#[derive(Debug, Clone)]
pub struct TursoError {
    pub kind: TursoErrorKind,
    pub message: String,
    pub detail: String,
}

/// Spec-level value of a [`TursoError`].
pub struct TursoErrorView {
    pub kind: TursoErrorKind,
    pub message: Seq<char>,
    pub detail: Seq<char>,
}

impl View for TursoError {
    type V = TursoErrorView;

    open spec fn view(&self) -> TursoErrorView {
        TursoErrorView { kind: self.kind, message: self.message@, detail: self.detail@ }
    }
}

/// The text a Turso SDK error displays.
pub open spec fn turso_error_text(e: TursoErrorView) -> Seq<char> {
    match e.kind {
        TursoErrorKind::ToSqlConversionFailure => "SQL conversion failure: `"@ + e.message + "`"@,
        TursoErrorKind::QueryReturnedNoRows => "Query returned no rows"@,
        TursoErrorKind::ConversionFailure => "Conversion failure: `"@ + e.message + "`"@,
        TursoErrorKind::IoError => "I/O error ("@ + e.detail + "): "@ + e.message,
        _ => e.message,
    }
}

impl TursoError {
    /// An error of the given variant carrying `message`.
    pub fn new(kind: TursoErrorKind, message: &str) -> (e: TursoError)
        ensures
            e@.kind == kind,
            e@.message == message@,
            e@.detail == Seq::<char>::empty(),
    {
        TursoError { kind, message: String::from_str(message), detail: String::new() }
    }

    /// The text this error displays.
    pub fn display(&self) -> (s: String)
        ensures
            s@ == turso_error_text(self@),
    {
        match self.kind {
            TursoErrorKind::ToSqlConversionFailure => {
                let mut s = String::from_str("SQL conversion failure: `");
                s.append(self.message.as_str());
                s.append("`");
                s
            },
            TursoErrorKind::QueryReturnedNoRows => String::from_str("Query returned no rows"),
            TursoErrorKind::ConversionFailure => {
                let mut s = String::from_str("Conversion failure: `");
                s.append(self.message.as_str());
                s.append("`");
                s
            },
            TursoErrorKind::IoError => {
                let mut s = String::from_str("I/O error (");
                s.append(self.detail.as_str());
                s.append("): ");
                s.append(self.message.as_str());
                s
            },
            _ => self.message.clone(),
        }
    }
}

/// The error of the query layer.
#[derive(Debug)]
pub enum Error {
    /// An error reported by the Turso SDK.
    Turso(TursoError),
    /// A protocol violation detected by the layer itself.
    Protocol(String),
    /// A query that had to return a row returned none.
    RowNotFound,
}

/// Spec-level value of an [`Error`].
pub enum ErrorView {
    Turso(TursoErrorView),
    Protocol(Seq<char>),
    RowNotFound,
}

impl View for Error {
    type V = ErrorView;

    open spec fn view(&self) -> ErrorView {
        match self {
            Error::Turso(e) => ErrorView::Turso(e@),
            Error::Protocol(m) => ErrorView::Protocol(m@),
            Error::RowNotFound => ErrorView::RowNotFound,
        }
    }
}

/// The text an [`Error`] displays.
pub open spec fn error_text(e: ErrorView) -> Seq<char> {
    match e {
        ErrorView::Turso(t) => turso_error_text(t),
        ErrorView::Protocol(m) => m,
        ErrorView::RowNotFound => "query returned no rows"@,
    }
}

/// A Turso failure that a concurrent transaction may clear by replaying the
/// whole operation: busy, busy-snapshot, or a generic error whose text
/// mentions a conflict (in any ASCII case).
pub open spec fn transaction_retryable(e: ErrorView) -> bool {
    match e {
        ErrorView::Turso(t) => {
            ||| t.kind == TursoErrorKind::Busy
            ||| t.kind == TursoErrorKind::BusySnapshot
            ||| (t.kind == TursoErrorKind::Error && text_contains(lower_text(t.message), "conflict"@))
        },
        _ => false,
    }
}

/// A Turso failure of a `ROLLBACK` issued when no transaction was open.
pub open spec fn no_active_transaction(e: TursoErrorView) -> bool {
    &&& e.kind == TursoErrorKind::Error
    &&& text_contains(lower_text(e.message), "cannot rollback"@)
    &&& text_contains(lower_text(e.message), "no transaction is active"@)
}

/// A protocol error carrying `message`.
pub open spec fn protocol(message: Seq<char>) -> ErrorView {
    ErrorView::Protocol(message)
}

/// A Turso error of the given variant and message.
pub open spec fn turso_fault(kind: TursoErrorKind, message: Seq<char>) -> ErrorView {
    ErrorView::Turso(TursoErrorView { kind, message, detail: Seq::empty() })
}

/// Lowering leaves every character of `p` unchanged.
spec fn lowering_fixed(p: Seq<char>) -> bool {
    forall|k: int| 0 <= k < p.len() ==> #[trigger] ascii_lower(p[k]) == p[k]
}

/// An occurrence of a text that lowering leaves unchanged survives lowering.
proof fn lemma_occurrence_survives_lowering(m: Seq<char>, p: Seq<char>, i: int)
    requires
        occurs_at(m, p, i),
        lowering_fixed(p),
    ensures
        occurs_at(lower_text(m), p, i),
{
    assert forall|k: int| 0 <= k < p.len() implies lower_text(m)[i + k] == p[k] by {
        assert(m.subrange(i, i + p.len())[k] == p[k]);
        assert(m[i + k] == p[k]);
        assert(ascii_lower(p[k]) == p[k]);
    }
    assert(lower_text(m).subrange(i, i + p.len()) =~= p);
}

/// A text mentioning `p` (which lowering leaves unchanged) still mentions it
/// once lowered.
proof fn lemma_mention_survives_lowering(m: Seq<char>, p: Seq<char>)
    requires
        text_contains(m, p),
        lowering_fixed(p),
    ensures
        text_contains(lower_text(m), p),
{
    let i = choose|i: int| occurs_at(m, p, i);
    lemma_occurrence_survives_lowering(m, p, i);
}

proof fn lemma_conflict_is_lowercase()
    ensures
        lowering_fixed("conflict"@),
{
    reveal_strlit("conflict");
    let p = "conflict"@;
    assert(p[0] == 'c');
    assert(p[1] == 'o');
    assert(p[2] == 'n');
    assert(p[3] == 'f');
    assert(p[4] == 'l');
    assert(p[5] == 'i');
    assert(p[6] == 'c');
    assert(p[7] == 't');
}

proof fn lemma_cannot_rollback_is_lowercase()
    ensures
        lowering_fixed("cannot rollback"@),
{
    reveal_strlit("cannot rollback");
    let p = "cannot rollback"@;
    assert(p[0] == 'c');
    assert(p[1] == 'a');
    assert(p[2] == 'n');
    assert(p[3] == 'n');
    assert(p[4] == 'o');
    assert(p[5] == 't');
    assert(p[6] == ' ');
    assert(p[7] == 'r');
    assert(p[8] == 'o');
    assert(p[9] == 'l');
    assert(p[10] == 'l');
    assert(p[11] == 'b');
    assert(p[12] == 'a');
    assert(p[13] == 'c');
    assert(p[14] == 'k');
}

proof fn lemma_no_transaction_is_lowercase()
    ensures
        lowering_fixed("no transaction is active"@),
{
    reveal_strlit("no transaction is active");
    let p = "no transaction is active"@;
    assert(p[0] == 'n');
    assert(p[1] == 'o');
    assert(p[2] == ' ');
    assert(p[3] == 't');
    assert(p[4] == 'r');
    assert(p[5] == 'a');
    assert(p[6] == 'n');
    assert(p[7] == 's');
    assert(p[8] == 'a');
    assert(p[9] == 'c');
    assert(p[10] == 't');
    assert(p[11] == 'i');
    assert(p[12] == 'o');
    assert(p[13] == 'n');
    assert(p[14] == ' ');
    assert(p[15] == 'i');
    assert(p[16] == 's');
    assert(p[17] == ' ');
    assert(p[18] == 'a');
    assert(p[19] == 'c');
    assert(p[20] == 't');
    assert(p[21] == 'i');
    assert(p[22] == 'v');
    assert(p[23] == 'e');
}

/// Which failures replay a concurrent transaction: busy and busy-snapshot
/// errors always; a generic Turso error whose message mentions "conflict"
/// (in lower case, or in any other ASCII case, since the classification does
/// not depend on ASCII case); nothing the layer raises itself.
pub proof fn lemma_retryable_classification(m: Seq<char>, m_other_case: Seq<char>, d: Seq<char>)
    requires
        lower_text(m) == lower_text(m_other_case),
    ensures
        transaction_retryable(turso_fault(TursoErrorKind::Busy, m)),
        transaction_retryable(turso_fault(TursoErrorKind::BusySnapshot, m)),
        text_contains(m, "conflict"@) ==> transaction_retryable(turso_fault(TursoErrorKind::Error, m)),
        transaction_retryable(turso_fault(TursoErrorKind::Error, m)) == transaction_retryable(
            turso_fault(TursoErrorKind::Error, m_other_case),
        ),
        !transaction_retryable(ErrorView::RowNotFound),
        !transaction_retryable(ErrorView::Protocol(d)),
        !transaction_retryable(turso_fault(TursoErrorKind::Constraint, m)),
{
    if text_contains(m, "conflict"@) {
        lemma_conflict_is_lowercase();
        lemma_mention_survives_lowering(m, "conflict"@);
    }
}

/// A `ROLLBACK` failure reports that no transaction was open exactly for a
/// generic Turso error: one whose message mentions "cannot rollback" and "no
/// transaction is active" (in lower case, or in any other ASCII case, since
/// the recognition does not depend on ASCII case) is recognised, and no
/// other variant ever is.
pub proof fn lemma_no_active_transaction_recognition(
    m: Seq<char>,
    m_other_case: Seq<char>,
    kind: TursoErrorKind,
)
    requires
        lower_text(m) == lower_text(m_other_case),
    ensures
        text_contains(m, "cannot rollback"@) && text_contains(m, "no transaction is active"@)
            ==> no_active_transaction(TursoErrorView { kind: TursoErrorKind::Error, message: m, detail: Seq::empty() }),
        no_active_transaction(TursoErrorView { kind: TursoErrorKind::Error, message: m, detail: Seq::empty() })
            == no_active_transaction(
            TursoErrorView { kind: TursoErrorKind::Error, message: m_other_case, detail: Seq::empty() },
        ),
        kind != TursoErrorKind::Error ==> !no_active_transaction(
            TursoErrorView { kind, message: m, detail: Seq::empty() },
        ),
{
    if text_contains(m, "cannot rollback"@) && text_contains(m, "no transaction is active"@) {
        lemma_cannot_rollback_is_lowercase();
        lemma_no_transaction_is_lowercase();
        lemma_mention_survives_lowering(m, "cannot rollback"@);
        lemma_mention_survives_lowering(m, "no transaction is active"@);
    }
}

impl Error {
    /// Whether a concurrent transaction that failed with this error should be
    /// replayed.
    pub fn is_turso_transaction_retryable(&self) -> (r: bool)
        ensures
            r == transaction_retryable(self@),
    {
        match self {
            Error::Turso(e) => {
                match e.kind {
                    TursoErrorKind::Busy => true,
                    TursoErrorKind::BusySnapshot => true,
                    TursoErrorKind::Error => lowercase_contains(e.message.as_str(), "conflict"),
                    _ => false,
                }
            },
            _ => false,
        }
    }

    /// The text this error displays.
    pub fn message(&self) -> (s: String)
        ensures
            s@ == error_text(self@),
    {
        match self {
            Error::Turso(e) => e.display(),
            Error::Protocol(m) => m.clone(),
            Error::RowNotFound => String::from_str("query returned no rows"),
        }
    }

    /// A protocol error carrying `message`.
    pub fn protocol(message: String) -> (e: Error)
        ensures
            e@ == protocol(message@),
    {
        Error::Protocol(message)
    }
}

/// Whether a failed `ROLLBACK` only reports that no transaction was open.
pub fn is_no_active_transaction_error(error: &TursoError) -> (r: bool)
    ensures
        r == no_active_transaction(error@),
{
    match error.kind {
        TursoErrorKind::Error => {
            lowercase_contains(error.message.as_str(), "cannot rollback")
                && lowercase_contains(error.message.as_str(), "no transaction is active")
        },
        _ => false,
    }
}

impl From<TursoError> for Error {
    fn from(value: TursoError) -> (e: Error) {
        Error::Turso(value)
    }
}

impl vstd::std_specs::convert::FromSpecImpl<TursoError> for Error {
    open spec fn obeys_from_spec() -> bool {
        true
    }

    open spec fn from_spec(v: TursoError) -> Error {
        Error::Turso(v)
    }
}

} // verus!
