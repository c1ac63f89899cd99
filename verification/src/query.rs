//! Query builders (`query`, `query_scalar`, `query_as`) and the decoding of
//! fetched rows into what each fetch method returns. Running a query is I/O
//! and happens outside this crate; it hands the fetched rows back here.

use std::marker::PhantomData;

use vstd::prelude::*;

use crate::errors::{Error, ErrorView};
use crate::values::{
    fails_with, position_lookup, try_get_result, DbRow, DbRowView, DbValue, DbValueView,
    FromDbRow, IntoDbValue, TryFromValue,
};

verus! {

/// Outcome of a statement that returns no rows.
#[derive(Debug, Clone)]
pub struct Done {
    rows_affected: u64,
}

impl Done {
    /// The outcome of a statement that changed `rows_affected` rows.
    pub fn new(rows_affected: u64) -> (d: Done)
        ensures
            d.affected() == rows_affected,
    {
        Done { rows_affected }
    }

    pub closed spec fn affected(&self) -> u64 {
        self.rows_affected
    }

    /// Number of rows the statement changed.
    pub fn rows_affected(&self) -> (n: u64)
        ensures
            n == self.affected(),
    {
        self.rows_affected
    }
}

/// An SQL statement with its bound parameters, in binding order.
#[derive(Debug, Clone)]
pub struct Query {
    sql: String,
    params: Vec<DbValue>,
}

/// Spec-level value of a [`Query`].
pub struct QueryView {
    pub sql: Seq<char>,
    pub params: Seq<DbValueView>,
}

impl View for Query {
    type V = QueryView;

    closed spec fn view(&self) -> QueryView {
        QueryView { sql: self.sql@, params: self.params@.map_values(|v: DbValue| v@) }
    }
}

/// A new query for `sql` with no parameters bound.
pub fn query(sql: &str) -> (q: Query)
    ensures
        q@.sql == sql@,
        q@.params == Seq::<DbValueView>::empty(),
{
    let q = Query { sql: String::from_str(sql), params: Vec::new() };
    assert(q@.params =~= Seq::<DbValueView>::empty());
    q
}

impl Query {
    /// Binds the next parameter.
    pub fn bind<V: IntoDbValue>(self, value: V) -> (q: Query)
        requires
            value.can_bind(),
        ensures
            q@.sql == self@.sql,
            q@.params == self@.params.push(value.bound_value()),
    {
        let mut q = self;
        let ghost before = q.params@;
        let v = value.into_db_value();
        q.params.push(v);
        assert(q.params@.map_values(|x: DbValue| x@) =~= before.map_values(|x: DbValue| x@).push(
            v@,
        ));
        q
    }

    /// The statement text.
    pub fn sql(&self) -> (s: &str)
        ensures
            s@ == self@.sql,
    {
        self.sql.as_str()
    }

    /// The statement text and its parameters, in binding order.
    pub fn into_parts(self) -> (parts: (String, Vec<DbValue>))
        ensures
            parts.0@ == self@.sql,
            parts.1@.map_values(|v: DbValue| v@) == self@.params,
    {
        (self.sql, self.params)
    }
}

/// A query whose first column of its first row decodes as `T`.
pub struct QueryScalar<DB, T> {
    query: Query,
    _marker: PhantomData<(DB, T)>,
}

/// A query whose first row decodes as `T`.
pub struct QueryAs<DB, T> {
    query: Query,
    _marker: PhantomData<(DB, T)>,
}

/// A new scalar query for `sql` with no parameters bound.
pub fn query_scalar<DB, T>(sql: &str) -> (q: QueryScalar<DB, T>)
    ensures
        q.inner()@.sql == sql@,
        q.inner()@.params == Seq::<DbValueView>::empty(),
{
    QueryScalar { query: query(sql), _marker: PhantomData }
}

/// A new row-mapping query for `sql` with no parameters bound.
pub fn query_as<DB, T>(sql: &str) -> (q: QueryAs<DB, T>)
    ensures
        q.inner()@.sql == sql@,
        q.inner()@.params == Seq::<DbValueView>::empty(),
{
    QueryAs { query: query(sql), _marker: PhantomData }
}

impl<DB, T> QueryScalar<DB, T> {
    pub closed spec fn inner(&self) -> Query {
        self.query
    }

    /// Binds the next parameter.
    pub fn bind<V: IntoDbValue>(self, value: V) -> (q: QueryScalar<DB, T>)
        requires
            value.can_bind(),
        ensures
            q.inner()@.sql == self.inner()@.sql,
            q.inner()@.params == self.inner()@.params.push(value.bound_value()),
    {
        QueryScalar { query: self.query.bind(value), _marker: PhantomData }
    }

    /// The underlying query, to be run.
    pub fn into_query(self) -> (q: Query)
        ensures
            q == self.inner(),
    {
        self.query
    }
}

impl<DB, T> QueryAs<DB, T> {
    pub closed spec fn inner(&self) -> Query {
        self.query
    }

    /// Binds the next parameter.
    pub fn bind<V: IntoDbValue>(self, value: V) -> (q: QueryAs<DB, T>)
        requires
            value.can_bind(),
        ensures
            q.inner()@.sql == self.inner()@.sql,
            q.inner()@.params == self.inner()@.params.push(value.bound_value()),
    {
        QueryAs { query: self.query.bind(value), _marker: PhantomData }
    }

    /// The underlying query, to be run.
    pub fn into_query(self) -> (q: Query)
        ensures
            q == self.inner(),
    {
        self.query
    }
}

// ---------------------------------------------------------------------------
// What each fetch method makes of the fetched rows
// ---------------------------------------------------------------------------

/// Views of a sequence of rows.
pub open spec fn rows_view(rows: Seq<DbRow>) -> Seq<DbRowView> {
    rows.map_values(|r: DbRow| r@)
}

/// `fetch_optional`: the first fetched row, if any.
pub fn first_row(rows: Vec<DbRow>) -> (r: Option<DbRow>)
    ensures
        rows@.len() == 0 ==> r is None,
        rows@.len() > 0 ==> r == Some(rows@[0]),
{
    let mut rows = rows;
    if rows.len() == 0 {
        None
    } else {
        Some(rows.remove(0))
    }
}

/// `fetch_one`: the first fetched row, or `RowNotFound` when there is none.
pub fn one_row(rows: Vec<DbRow>) -> (r: Result<DbRow, Error>)
    ensures
        rows@.len() == 0 ==> fails_with(r, ErrorView::RowNotFound),
        rows@.len() > 0 ==> (r matches Ok(row) && row == rows@[0]),
{
    match first_row(rows) {
        Some(row) => Ok(row),
        None => Err(Error::RowNotFound),
    }
}

/// `QueryScalar::fetch_one`: the first column of the first row, decoded.
pub fn scalar_from_rows<T: TryFromValue>(rows: Vec<DbRow>) -> (r: Result<T, Error>)
    ensures
        rows@.len() == 0 ==> fails_with(r, ErrorView::RowNotFound),
        rows@.len() > 0 ==> try_get_result(rows@[0]@, position_lookup(0, rows@[0]@), r),
{
    match one_row(rows) {
        Ok(row) => row.try_get::<T, usize>(0usize),
        Err(e) => Err(e),
    }
}

/// `QueryScalar::fetch_optional`: the first column of the first row, decoded,
/// or `None` when no row was fetched.
pub fn optional_scalar_from_rows<T: TryFromValue>(rows: Vec<DbRow>) -> (r: Result<Option<T>, Error>)
    ensures
        rows@.len() == 0 ==> r matches Ok(None),
        rows@.len() > 0 ==> match r {
            Ok(Some(v)) => try_get_result(rows@[0]@, position_lookup(0, rows@[0]@), Ok::<T, Error>(v)),
            Ok(None) => false,
            Err(e) => try_get_result(rows@[0]@, position_lookup(0, rows@[0]@), Err::<T, Error>(e)),
        },
{
    match first_row(rows) {
        Some(row) => match row.try_get::<T, usize>(0usize) {
            Ok(v) => Ok(Some(v)),
            Err(e) => Err(e),
        },
        None => Ok(None),
    }
}

/// `QueryAs::fetch_one`: the first row, decoded.
pub fn mapped_from_rows<T: FromDbRow>(rows: Vec<DbRow>) -> (r: Result<T, Error>)
    ensures
        rows@.len() == 0 ==> fails_with(r, ErrorView::RowNotFound),
        rows@.len() > 0 ==> T::row_decoding(rows@[0]@, r),
{
    match one_row(rows) {
        Ok(row) => T::from_row(&row),
        Err(e) => Err(e),
    }
}

/// `QueryAs::fetch_optional`: the first row, decoded, or `None` when no row
/// was fetched.
pub fn optional_mapped_from_rows<T: FromDbRow>(rows: Vec<DbRow>) -> (r: Result<Option<T>, Error>)
    ensures
        rows@.len() == 0 ==> r matches Ok(None),
        rows@.len() > 0 ==> match r {
            Ok(Some(v)) => T::row_decoding(rows@[0]@, Ok::<T, Error>(v)),
            Ok(None) => false,
            Err(e) => T::row_decoding(rows@[0]@, Err::<T, Error>(e)),
        },
{
    match first_row(rows) {
        Some(row) => match T::from_row(&row) {
            Ok(v) => Ok(Some(v)),
            Err(e) => Err(e),
        },
        None => Ok(None),
    }
}

} // verus!
