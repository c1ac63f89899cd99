//! Bookkeeping of the connection pool: its size, the idle connections waiting
//! to be checked out, whether a connection owes a `ROLLBACK` before its next
//! use, and the life of an explicit transaction. Opening connections and
//! running statements is I/O done outside this crate; it reports each
//! statement's outcome back here.

use vstd::prelude::*;

use crate::errors::{is_no_active_transaction_error, no_active_transaction, protocol, Error, ErrorView, TursoError};
use crate::timespan::TimeSpan;
use crate::values::fails_with;

verus! {

/// Marker for the SQLite-compatible database family.
pub struct Sqlite;

/// Settings of a connection pool.
pub struct PoolOptions {
    /// Requested number of connections (at least one is always opened).
    pub max_connections: usize,
    /// Busy timeout applied to each connection.
    pub busy_timeout: TimeSpan,
    /// Statement that opens a transaction.
    pub begin_statement: &'static str,
}

/// Number of connections a pool opens for a requested size.
pub open spec fn effective_pool_size(max_connections: usize) -> usize {
    if max_connections >= 1 {
        max_connections
    } else {
        1
    }
}

/// Number of connections a pool opens: the requested size, but at least one.
pub fn pool_size(max_connections: usize) -> (n: usize)
    ensures
        n == effective_pool_size(max_connections),
        n >= 1,
{
    if max_connections >= 1 {
        max_connections
    } else {
        1
    }
}

/// The statement that ends a transaction by committing it.
pub fn commit_statement() -> (s: &'static str)
    ensures
        s@ == "COMMIT"@,
{
    "COMMIT"
}

/// The statement that ends a transaction by discarding it.
pub fn rollback_statement() -> (s: &'static str)
    ensures
        s@ == "ROLLBACK"@,
{
    "ROLLBACK"
}

/// The error of a checkout from a pool that has been closed.
pub fn pool_closed_error() -> (e: Error)
    ensures
        e@ == protocol("Turso connection pool closed"@),
{
    Error::Protocol(String::from_str("Turso connection pool closed"))
}

/// The error of a pool-wide statement that could not get hold of every
/// connection in time.
pub fn pool_wide_timeout_error() -> (e: Error)
    ensures
        e@ == protocol("Timed out acquiring Turso connection for pool-wide initialization"@),
{
    Error::Protocol(String::from_str("Timed out acquiring Turso connection for pool-wide initialization"))
}

/// A pooled connection and whether it owes a `ROLLBACK` before its next use.
pub struct ConnectionState<C> {
    pub conn: C,
    pub rollback_needed: bool,
}

impl<C> ConnectionState<C> {
    /// A freshly opened connection, with nothing to roll back.
    pub fn fresh(conn: C) -> (s: ConnectionState<C>)
        ensures
            s.conn == conn,
            !s.rollback_needed,
    {
        ConnectionState { conn, rollback_needed: false }
    }

    /// Whether a `ROLLBACK` must run before the connection is used.
    pub fn needs_rollback(&self) -> (b: bool)
        ensures
            b == self.rollback_needed,
    {
        self.rollback_needed
    }

    /// Records the outcome of the `ROLLBACK` run because one was owed: success,
    /// or the report that no transaction was open, clears the debt; any other
    /// failure is returned and the debt stays.
    pub fn settle_rollback(&mut self, outcome: Result<(), TursoError>) -> (r: Result<(), Error>)
        ensures
            final(self).conn == old(self).conn,
            final(self).rollback_needed == rollback_debt_after(
                old(self).rollback_needed,
                outcome_clears_debt(outcome),
            ),
            (match outcome {
                Ok(()) => r is Ok,
                Err(e) => if no_active_transaction(e@) {
                    r is Ok
                } else {
                    fails_with(r, ErrorView::Turso(e@))
                },
            }),
    {
        match outcome {
            Ok(()) => {
                self.rollback_needed = false;
                Ok(())
            },
            Err(error) => {
                if is_no_active_transaction_error(&error) {
                    self.rollback_needed = false;
                    Ok(())
                } else {
                    Err(Error::Turso(error))
                }
            },
        }
    }
}

/// A `ROLLBACK` outcome that leaves the connection without an open transaction.
pub open spec fn outcome_clears_debt(outcome: Result<(), TursoError>) -> bool {
    match outcome {
        Ok(()) => true,
        Err(e) => no_active_transaction(e@),
    }
}

/// Whether a connection still owes a `ROLLBACK` after one was attempted.
pub open spec fn rollback_debt_after(owed: bool, cleared: bool) -> bool {
    owed && !cleared
}

/// Whether a connection owes a `ROLLBACK` after a transaction on it ends.
pub open spec fn rollback_debt_on_release(owed: bool, transaction_active: bool) -> bool {
    owed || transaction_active
}

/// The idle connections of a pool, handed out last-in first-out.
pub struct IdleConnections<C> {
    slots: Vec<ConnectionState<C>>,
}

impl<C> View for IdleConnections<C> {
    type V = Seq<ConnectionState<C>>;

    closed spec fn view(&self) -> Seq<ConnectionState<C>> {
        self.slots@
    }
}

impl<C> IdleConnections<C> {
    /// A pool with no idle connection.
    pub fn new() -> (p: IdleConnections<C>)
        ensures
            p@ == Seq::<ConnectionState<C>>::empty(),
    {
        IdleConnections { slots: Vec::new() }
    }

    /// Number of idle connections.
    pub fn len(&self) -> (n: usize)
        ensures
            n == self@.len(),
    {
        self.slots.len()
    }

    /// Returns a connection to the pool.
    pub fn checkin(&mut self, state: ConnectionState<C>)
        ensures
            final(self)@ == old(self)@.push(state),
    {
        self.slots.push(state);
    }

    /// Takes the most recently returned idle connection; fails when none is
    /// idle.
    pub fn checkout(&mut self) -> (r: Result<ConnectionState<C>, Error>)
        ensures
            old(self)@.len() > 0 ==> (r matches Ok(s) && s == old(self)@.last() && final(self)@
                == old(self)@.drop_last()),
            old(self)@.len() == 0 ==> (fails_with(r, protocol("Turso connection pool exhausted"@))
                && final(self)@ == old(self)@),
    {
        match self.slots.pop() {
            Some(state) => Ok(state),
            None => Err(Error::Protocol(String::from_str("Turso connection pool exhausted"))),
        }
    }
}

/// The state of an explicit transaction on a checked-out connection.
pub struct TransactionState {
    active: bool,
}

impl TransactionState {
    /// A transaction whose opening statement succeeded.
    pub fn begun() -> (t: TransactionState)
        ensures
            t.is_open(),
    {
        TransactionState { active: true }
    }

    /// Neither committed nor rolled back yet.
    pub closed spec fn is_open(&self) -> bool {
        self.active
    }

    /// Whether the transaction is still open.
    pub fn active(&self) -> (b: bool)
        ensures
            b == self.is_open(),
    {
        self.active
    }

    /// Records the outcome of the `COMMIT` or `ROLLBACK` that ends the
    /// transaction: success closes it; a failure is returned and leaves it
    /// open.
    pub fn settle(&mut self, outcome: Result<(), TursoError>) -> (r: Result<(), Error>)
        ensures
            (match outcome {
                Ok(()) => r is Ok && !final(self).is_open(),
                Err(e) => final(self).is_open() == old(self).is_open() && fails_with(
                    r,
                    ErrorView::Turso(e@),
                ),
            }),
    {
        match outcome {
            Ok(()) => {
                self.active = false;
                Ok(())
            },
            Err(e) => Err(Error::Turso(e)),
        }
    }

    /// Gives the connection back when the transaction goes away: one left
    /// open makes the connection owe a `ROLLBACK`.
    pub fn release<C>(&self, conn: &mut ConnectionState<C>)
        ensures
            final(conn).conn == old(conn).conn,
            final(conn).rollback_needed == rollback_debt_on_release(
                old(conn).rollback_needed,
                self.is_open(),
            ),
    {
        if self.active {
            conn.rollback_needed = true;
        }
    }
}

/// A transaction given up while open leaves its connection owing a
/// `ROLLBACK`, and the connection is clean again only once a `ROLLBACK`
/// outcome that closes any transaction has been recorded; a committed or
/// rolled-back transaction adds no debt.
pub proof fn lemma_abandoned_transaction_rolled_back_before_reuse(
    owed: bool,
    transaction_open: bool,
    cleared: bool,
)
    ensures
        transaction_open ==> rollback_debt_on_release(owed, transaction_open),
        !transaction_open ==> rollback_debt_on_release(owed, transaction_open) == owed,
        rollback_debt_after(rollback_debt_on_release(owed, transaction_open), cleared) == ((owed
            || transaction_open) && !cleared),
        cleared ==> !rollback_debt_after(rollback_debt_on_release(owed, transaction_open), cleared),
{
}

/// Returning a connection and checking one out again hands back that same
/// connection, and leaves the other idle connections as they were.
pub proof fn lemma_checkin_then_checkout<C>(idle: Seq<ConnectionState<C>>, state: ConnectionState<C>)
    ensures
        idle.push(state).len() > 0,
        idle.push(state).last() == state,
        idle.push(state).drop_last() == idle,
{
    assert(idle.push(state).drop_last() =~= idle);
}

} // verus!
