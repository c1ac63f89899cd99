//! Database values, rows, and the conversions between them and Rust values:
//! binding parameters (`IntoDbValue`), decoding columns (`TryFromValue`),
//! locating columns (`ColumnIndex`) and decoding whole rows (`FromDbRow`).

use vstd::prelude::*;
use vstd::utf8::{decode_utf8, valid_utf8};

use crate::errors::{protocol, Error, ErrorView};
use crate::text::{
    decimal, i64_to_decimal, int_parse_error_text, parse_i64, parse_i64_text, signed_decimal,
    text_eq, usize_to_decimal,
};

verus! {

/// What the query layer reads of a floating-point column value: its IEEE-754
/// bit pattern, the text it displays, and its conversion to `i64` (`as`, which
/// truncates towards zero and saturates).
#[derive(Debug, Clone, PartialEq)]
pub struct RealValue {
    pub bits: u64,
    pub text: String,
    pub truncated: i64,
}

/// A database value (`turso::Value`).
#[derive(Debug, Clone, PartialEq)]
pub enum DbValue {
    Null,
    Integer(i64),
    Real(RealValue),
    Text(String),
    Blob(Vec<u8>),
}

/// Spec-level value of a [`DbValue`].
pub enum DbValueView {
    Null,
    Integer(i64),
    Real(u64, Seq<char>, i64),
    Text(Seq<char>),
    Blob(Seq<u8>),
}

impl View for DbValue {
    type V = DbValueView;

    open spec fn view(&self) -> DbValueView {
        match self {
            DbValue::Null => DbValueView::Null,
            DbValue::Integer(i) => DbValueView::Integer(*i),
            DbValue::Real(r) => DbValueView::Real(r.bits, r.text@, r.truncated),
            DbValue::Text(s) => DbValueView::Text(s@),
            DbValue::Blob(b) => DbValueView::Blob(b@),
        }
    }
}

/// The view of an optional borrowed value.
pub open spec fn cell_view(value: Option<&DbValue>) -> Option<DbValueView> {
    match value {
        Some(v) => Some(v@),
        None => None,
    }
}

/// `r` is `Err` with an error whose view is `e`.
pub open spec fn fails_with<T>(r: Result<T, Error>, e: ErrorView) -> bool {
    r matches Err(x) && x@ == e
}

// ---------------------------------------------------------------------------
// Binding parameters
// ---------------------------------------------------------------------------

/// Converts a `u64` parameter to SQLite's signed 64-bit `INTEGER`.
pub fn u64_to_turso_integer(value: u64) -> (r: i64)
    requires
        value <= i64::MAX as u64,
    ensures
        r as int == value as int,
{
    value as i64
}

/// A Rust value that can be bound as a query parameter.
pub trait IntoDbValue: Sized {
    /// The value can be represented as a database value.
    spec fn can_bind(&self) -> bool;

    /// The database value this Rust value binds as.
    spec fn bound_value(&self) -> DbValueView;

    fn into_db_value(self) -> (v: DbValue)
        requires
            self.can_bind(),
        ensures
            v@ == self.bound_value(),
    ;
}

impl IntoDbValue for DbValue {
    open spec fn can_bind(&self) -> bool {
        true
    }

    open spec fn bound_value(&self) -> DbValueView {
        self@
    }

    fn into_db_value(self) -> (v: DbValue) {
        self
    }
}

impl IntoDbValue for String {
    open spec fn can_bind(&self) -> bool {
        true
    }

    open spec fn bound_value(&self) -> DbValueView {
        DbValueView::Text(self@)
    }

    fn into_db_value(self) -> (v: DbValue) {
        DbValue::Text(self)
    }
}

impl<'a> IntoDbValue for &'a String {
    open spec fn can_bind(&self) -> bool {
        true
    }

    open spec fn bound_value(&self) -> DbValueView {
        DbValueView::Text(self@)
    }

    fn into_db_value(self) -> (v: DbValue) {
        DbValue::Text(self.clone())
    }
}

impl<'a> IntoDbValue for &'a str {
    open spec fn can_bind(&self) -> bool {
        true
    }

    open spec fn bound_value(&self) -> DbValueView {
        DbValueView::Text(self@)
    }

    fn into_db_value(self) -> (v: DbValue) {
        DbValue::Text(String::from_str(self))
    }
}

impl<'a, 'b> IntoDbValue for &'a &'b str {
    open spec fn can_bind(&self) -> bool {
        true
    }

    open spec fn bound_value(&self) -> DbValueView {
        DbValueView::Text(self@)
    }

    fn into_db_value(self) -> (v: DbValue) {
        DbValue::Text(String::from_str(*self))
    }
}

impl IntoDbValue for i64 {
    open spec fn can_bind(&self) -> bool {
        true
    }

    open spec fn bound_value(&self) -> DbValueView {
        DbValueView::Integer(*self)
    }

    fn into_db_value(self) -> (v: DbValue) {
        DbValue::Integer(self)
    }
}

impl<'a> IntoDbValue for &'a i64 {
    open spec fn can_bind(&self) -> bool {
        true
    }

    open spec fn bound_value(&self) -> DbValueView {
        DbValueView::Integer(**self)
    }

    fn into_db_value(self) -> (v: DbValue) {
        DbValue::Integer(*self)
    }
}

impl IntoDbValue for u64 {
    /// Only values within SQLite's signed 64-bit `INTEGER` range bind.
    open spec fn can_bind(&self) -> bool {
        *self <= i64::MAX as u64
    }

    open spec fn bound_value(&self) -> DbValueView {
        DbValueView::Integer(*self as i64)
    }

    fn into_db_value(self) -> (v: DbValue) {
        DbValue::Integer(u64_to_turso_integer(self))
    }
}

impl<'a> IntoDbValue for &'a u64 {
    open spec fn can_bind(&self) -> bool {
        **self <= i64::MAX as u64
    }

    open spec fn bound_value(&self) -> DbValueView {
        DbValueView::Integer(**self as i64)
    }

    fn into_db_value(self) -> (v: DbValue) {
        DbValue::Integer(u64_to_turso_integer(*self))
    }
}

impl<T: IntoDbValue> IntoDbValue for Option<T> {
    open spec fn can_bind(&self) -> bool {
        match self {
            Some(v) => v.can_bind(),
            None => true,
        }
    }

    open spec fn bound_value(&self) -> DbValueView {
        match self {
            Some(v) => v.bound_value(),
            None => DbValueView::Null,
        }
    }

    fn into_db_value(self) -> (v: DbValue) {
        match self {
            Some(value) => value.into_db_value(),
            None => DbValue::Null,
        }
    }
}

impl<'a, T> IntoDbValue for &'a Option<T> where &'a T: IntoDbValue {
    open spec fn can_bind(&self) -> bool {
        match self {
            Some(v) => (&v).can_bind(),
            None => true,
        }
    }

    open spec fn bound_value(&self) -> DbValueView {
        match self {
            Some(v) => (&v).bound_value(),
            None => DbValueView::Null,
        }
    }

    fn into_db_value(self) -> (v: DbValue) {
        match self {
            Some(value) => value.into_db_value(),
            None => DbValue::Null,
        }
    }
}


// ---------------------------------------------------------------------------
// Decoding column values
// ---------------------------------------------------------------------------

/// What `std::string::FromUtf8Error` displays for invalid UTF-8 `bytes`.
pub uninterp spec fn utf8_error_text(bytes: Seq<u8>) -> Seq<char>;

/// Decodes UTF-8 bytes into a `String` (`String::from_utf8`); on failure,
/// the text the UTF-8 error displays.
#[verifier::external_body]
fn string_from_utf8(bytes: &Vec<u8>) -> (r: Result<String, String>)
    ensures
        r is Ok <==> valid_utf8(bytes@),
        r matches Ok(s) ==> s@ == decode_utf8(bytes@),
        r matches Err(m) ==> m@ == utf8_error_text(bytes@),
{
    match String::from_utf8(bytes.to_vec()) {
        Ok(s) => Ok(s),
        Err(e) => Err(e.to_string()),
    }
}

/// The text of a BLOB column, given the outcome of decoding its bytes as
/// UTF-8: the decoded text, or a protocol error naming the UTF-8 failure.
pub fn text_from_blob(decoded: Result<String, String>) -> (r: Result<String, Error>)
    ensures
        decoded matches Ok(s) ==> r matches Ok(t) && t@ == s@,
        decoded matches Err(m) ==> fails_with(r, protocol("invalid UTF-8 blob: "@ + m@)),
{
    match decoded {
        Ok(s) => Ok(s),
        Err(m) => {
            let mut msg = String::from_str("invalid UTF-8 blob: ");
            msg.append(m.as_str());
            Err(Error::Protocol(msg))
        },
    }
}

/// Decoding a column as text (`String`).
pub open spec fn text_decoding(value: Option<DbValueView>, r: Result<String, Error>) -> bool {
    match value {
        Some(DbValueView::Text(t)) => r matches Ok(s) && s@ == t,
        Some(DbValueView::Integer(i)) => r matches Ok(s) && s@ == signed_decimal(i as int),
        Some(DbValueView::Real(_, text, _)) => r matches Ok(s) && s@ == text,
        Some(DbValueView::Blob(b)) => if valid_utf8(b) {
            r matches Ok(s) && s@ == decode_utf8(b)
        } else {
            fails_with(r, protocol("invalid UTF-8 blob: "@ + utf8_error_text(b)))
        },
        Some(DbValueView::Null) => fails_with(r, protocol("unexpected NULL"@)),
        None => fails_with(r, protocol("missing column"@)),
    }
}

/// Decoding a column as an integer (`i64`).
pub open spec fn integer_decoding(value: Option<DbValueView>, r: Result<i64, Error>) -> bool {
    match value {
        Some(DbValueView::Integer(i)) => r == Ok::<i64, Error>(i),
        Some(DbValueView::Text(t)) => match parse_i64_text(t) {
            Ok(i) => r == Ok::<i64, Error>(i),
            Err(e) => fails_with(
                r,
                protocol("failed to parse integer '"@ + t + "': "@ + int_parse_error_text(e)),
            ),
        },
        Some(DbValueView::Real(_, _, truncated)) => r == Ok::<i64, Error>(truncated),
        Some(DbValueView::Null) => fails_with(r, protocol("unexpected NULL"@)),
        Some(DbValueView::Blob(_)) => fails_with(r, protocol("unexpected BLOB"@)),
        None => fails_with(r, protocol("missing column"@)),
    }
}

/// A column value absent or `NULL`.
pub open spec fn is_null_cell(value: Option<DbValueView>) -> bool {
    value matches None || value matches Some(DbValueView::Null)
}

/// A Rust value that can be decoded from a column value.
pub trait TryFromValue: Sized {
    /// `r` is what decoding `value` gives.
    spec fn decoding(value: Option<DbValueView>, r: Result<Self, Error>) -> bool;

    fn try_from_value(value: Option<&DbValue>) -> (r: Result<Self, Error>)
        ensures
            Self::decoding(cell_view(value), r),
    ;
}

impl TryFromValue for String {
    open spec fn decoding(value: Option<DbValueView>, r: Result<String, Error>) -> bool {
        text_decoding(value, r)
    }

    fn try_from_value(value: Option<&DbValue>) -> (r: Result<String, Error>) {
        match value {
            Some(DbValue::Text(v)) => Ok(v.clone()),
            Some(DbValue::Integer(v)) => Ok(i64_to_decimal(*v)),
            Some(DbValue::Real(v)) => Ok(v.text.clone()),
            Some(DbValue::Blob(v)) => text_from_blob(string_from_utf8(v)),
            Some(DbValue::Null) => Err(Error::Protocol(String::from_str("unexpected NULL"))),
            None => Err(Error::Protocol(String::from_str("missing column"))),
        }
    }
}

impl TryFromValue for Option<String> {
    open spec fn decoding(value: Option<DbValueView>, r: Result<Option<String>, Error>) -> bool {
        if is_null_cell(value) {
            r matches Ok(None)
        } else {
            match r {
                Ok(Some(s)) => text_decoding(value, Ok(s)),
                Ok(None) => false,
                Err(e) => text_decoding(value, Err(e)),
            }
        }
    }

    fn try_from_value(value: Option<&DbValue>) -> (r: Result<Option<String>, Error>) {
        match value {
            Some(DbValue::Null) | None => Ok(None),
            Some(_) => match String::try_from_value(value) {
                Ok(s) => Ok(Some(s)),
                Err(e) => Err(e),
            },
        }
    }
}

impl TryFromValue for i64 {
    open spec fn decoding(value: Option<DbValueView>, r: Result<i64, Error>) -> bool {
        integer_decoding(value, r)
    }

    fn try_from_value(value: Option<&DbValue>) -> (r: Result<i64, Error>) {
        match value {
            Some(DbValue::Integer(v)) => Ok(*v),
            Some(DbValue::Text(v)) => match parse_i64(v.as_str()) {
                Ok(i) => Ok(i),
                Err(e) => {
                    let mut msg = String::from_str("failed to parse integer '");
                    msg.append(v.as_str());
                    msg.append("': ");
                    msg.append(e.message().as_str());
                    Err(Error::Protocol(msg))
                },
            },
            Some(DbValue::Real(v)) => Ok(v.truncated),
            Some(DbValue::Null) => Err(Error::Protocol(String::from_str("unexpected NULL"))),
            Some(DbValue::Blob(_)) => Err(Error::Protocol(String::from_str("unexpected BLOB"))),
            None => Err(Error::Protocol(String::from_str("missing column"))),
        }
    }
}

impl TryFromValue for Option<i64> {
    open spec fn decoding(value: Option<DbValueView>, r: Result<Option<i64>, Error>) -> bool {
        if is_null_cell(value) {
            r matches Ok(None)
        } else {
            match r {
                Ok(Some(i)) => integer_decoding(value, Ok(i)),
                Ok(None) => false,
                Err(e) => integer_decoding(value, Err(e)),
            }
        }
    }

    fn try_from_value(value: Option<&DbValue>) -> (r: Result<Option<i64>, Error>) {
        match value {
            Some(DbValue::Null) | None => Ok(None),
            Some(_) => match i64::try_from_value(value) {
                Ok(i) => Ok(Some(i)),
                Err(e) => Err(e),
            },
        }
    }
}


// ---------------------------------------------------------------------------
// Rows and column lookup
// ---------------------------------------------------------------------------

/// One fetched row: its values, and the names of the result columns.
#[derive(Debug, Clone)]
pub struct DbRow {
    values: Vec<DbValue>,
    columns: Vec<String>,
}

/// Spec-level value of a [`DbRow`].
pub struct DbRowView {
    pub values: Seq<DbValueView>,
    pub columns: Seq<Seq<char>>,
}

impl View for DbRow {
    type V = DbRowView;

    closed spec fn view(&self) -> DbRowView {
        DbRowView {
            values: self.values@.map_values(|v: DbValue| v@),
            columns: self.columns@.map_values(|c: String| c@),
        }
    }
}

/// The value at position `i`, when the row has one.
pub open spec fn cell_at(row: DbRowView, i: int) -> Option<DbValueView> {
    if 0 <= i < row.values.len() {
        Some(row.values[i])
    } else {
        None
    }
}

/// The last position holding `name` (a name that occurs twice resolves to
/// its later column).
pub open spec fn last_position(names: Seq<Seq<char>>, name: Seq<char>) -> Option<int>
    decreases names.len(),
{
    if names.len() == 0 {
        None
    } else if names.last() == name {
        Some(names.len() - 1)
    } else {
        last_position(names.drop_last(), name)
    }
}

/// Resolving a numeric column index.
pub open spec fn position_lookup(index: usize, row: DbRowView) -> Result<usize, ErrorView> {
    if index < row.values.len() {
        Ok(index)
    } else {
        Err(protocol("column index "@ + decimal(index as nat) + " out of bounds"@))
    }
}

/// Resolving a column name.
pub open spec fn name_lookup(name: Seq<char>, row: DbRowView) -> Result<usize, ErrorView> {
    match last_position(row.columns, name) {
        Some(i) => Ok(i as usize),
        None => Err(protocol("column '"@ + name + "' not found"@)),
    }
}

impl DbRow {
    /// A row with the given values and result-column names.
    pub fn new(values: Vec<DbValue>, columns: Vec<String>) -> (row: DbRow)
        ensures
            row@.values == values@.map_values(|v: DbValue| v@),
            row@.columns == columns@.map_values(|c: String| c@),
    {
        DbRow { values, columns }
    }

    /// Number of values in the row.
    pub fn len(&self) -> (n: usize)
        ensures
            n == self@.values.len(),
    {
        self.values.len()
    }

    /// The value at position `i`, when the row has one (`slice::get`).
    pub fn get(&self, i: usize) -> (v: Option<&DbValue>)
        ensures
            cell_view(v) == cell_at(self@, i as int),
    {
        if i < self.values.len() {
            Some(&self.values[i])
        } else {
            None
        }
    }

    /// The last position whose column is named `name`.
    pub fn column_position(&self, name: &str) -> (r: Option<usize>)
        ensures
            r matches Some(i) ==> last_position(self@.columns, name@) == Some(i as int),
            r is None ==> last_position(self@.columns, name@) is None,
    {
        let mut k: usize = self.columns.len();
        assert(self@.columns.subrange(0, k as int) =~= self@.columns);
        while k > 0
            invariant
                k <= self.columns@.len(),
                last_position(self@.columns, name@) == last_position(self@.columns.subrange(0, k as int), name@),
            decreases k,
        {
            let ghost before = self@.columns.subrange(0, k as int);
            assert(before.drop_last() =~= self@.columns.subrange(0, k - 1));
            if text_eq(self.columns[k - 1].as_str(), name) {
                return Some(k - 1);
            }
            k = k - 1;
        }
        assert(self@.columns.subrange(0, 0) =~= Seq::<Seq<char>>::empty());
        None
    }

    /// Decodes the value of the column designated by `index`.
    pub fn try_get<T: TryFromValue, I: ColumnIndex>(&self, index: I) -> (r: Result<T, Error>)
        ensures
            try_get_result(self@, index.lookup(self@), r),
    {
        <Self as Row>::try_get(self, index)
    }
}

/// `r` is what decoding the column resolved by `lookup` gives.
pub open spec fn try_get_result<T: TryFromValue>(
    row: DbRowView,
    lookup: Result<usize, ErrorView>,
    r: Result<T, Error>,
) -> bool {
    match lookup {
        Ok(i) => T::decoding(cell_at(row, i as int), r),
        Err(e) => fails_with(r, e),
    }
}

/// A way of designating a column of a row.
pub trait ColumnIndex {
    /// The position this designates in `row`, or the error naming why none.
    spec fn lookup(&self, row: DbRowView) -> Result<usize, ErrorView>;

    fn index(&self, row: &DbRow) -> (r: Result<usize, Error>)
        ensures
            match self.lookup(row@) {
                Ok(i) => r == Ok::<usize, Error>(i),
                Err(e) => fails_with(r, e),
            },
    ;
}

impl ColumnIndex for usize {
    open spec fn lookup(&self, row: DbRowView) -> Result<usize, ErrorView> {
        position_lookup(*self, row)
    }

    fn index(&self, row: &DbRow) -> (r: Result<usize, Error>) {
        if *self < row.len() {
            Ok(*self)
        } else {
            let mut msg = String::from_str("column index ");
            msg.append(usize_to_decimal(*self).as_str());
            msg.append(" out of bounds");
            Err(Error::Protocol(msg))
        }
    }
}

fn lookup_name(name: &str, row: &DbRow) -> (r: Result<usize, Error>)
    ensures
        match name_lookup(name@, row@) {
            Ok(i) => r == Ok::<usize, Error>(i),
            Err(e) => fails_with(r, e),
        },
{
    match row.column_position(name) {
        Some(i) => Ok(i),
        None => {
            let mut msg = String::from_str("column '");
            msg.append(name);
            msg.append("' not found");
            Err(Error::Protocol(msg))
        },
    }
}

impl<'a> ColumnIndex for &'a str {
    open spec fn lookup(&self, row: DbRowView) -> Result<usize, ErrorView> {
        name_lookup(self@, row)
    }

    fn index(&self, row: &DbRow) -> (r: Result<usize, Error>) {
        lookup_name(*self, row)
    }
}

impl ColumnIndex for String {
    open spec fn lookup(&self, row: DbRowView) -> Result<usize, ErrorView> {
        name_lookup(self@, row)
    }

    fn index(&self, row: &DbRow) -> (r: Result<usize, Error>) {
        lookup_name(self.as_str(), row)
    }
}

/// Typed access to the columns of a row.
pub trait Row {
    spec fn row_view(&self) -> DbRowView;

    fn try_get<T: TryFromValue, I: ColumnIndex>(&self, index: I) -> (r: Result<T, Error>)
        ensures
            try_get_result(self.row_view(), index.lookup(self.row_view()), r),
    ;
}

impl Row for DbRow {
    open spec fn row_view(&self) -> DbRowView {
        self@
    }

    fn try_get<T: TryFromValue, I: ColumnIndex>(&self, index: I) -> (r: Result<T, Error>) {
        match index.index(self) {
            Ok(idx) => T::try_from_value(self.get(idx)),
            Err(e) => Err(e),
        }
    }
}

/// A Rust value decoded from a whole row.
pub trait FromDbRow: Sized {
    /// `r` is what decoding `row` gives.
    spec fn row_decoding(row: DbRowView, r: Result<Self, Error>) -> bool;

    fn from_row(row: &DbRow) -> (r: Result<Self, Error>)
        ensures
            Self::row_decoding(row@, r),
    ;
}

/// `r` is what decoding the first column of `row` as `T` gives.
pub open spec fn first_column_decoding<T: TryFromValue>(row: DbRowView, r: Result<T, Error>) -> bool {
    try_get_result(row, position_lookup(0, row), r)
}

impl FromDbRow for (i64,) {
    open spec fn row_decoding(row: DbRowView, r: Result<(i64,), Error>) -> bool {
        first_column_decoding::<i64>(
            row,
            match r {
                Ok(t) => Ok(t.0),
                Err(e) => Err(e),
            },
        )
    }

    fn from_row(row: &DbRow) -> (r: Result<(i64,), Error>) {
        match row.try_get::<i64, usize>(0usize) {
            Ok(v) => Ok((v,)),
            Err(e) => Err(e),
        }
    }
}

impl FromDbRow for (Option<String>,) {
    open spec fn row_decoding(row: DbRowView, r: Result<(Option<String>,), Error>) -> bool {
        first_column_decoding::<Option<String>>(
            row,
            match r {
                Ok(t) => Ok(t.0),
                Err(e) => Err(e),
            },
        )
    }

    fn from_row(row: &DbRow) -> (r: Result<(Option<String>,), Error>) {
        match row.try_get::<Option<String>, usize>(0usize) {
            Ok(v) => Ok((v,)),
            Err(e) => Err(e),
        }
    }
}


// ---------------------------------------------------------------------------
// Laws
// ---------------------------------------------------------------------------

/// What is bound reads back: a text bound as a parameter decodes to the same
/// text, a bound `i64` decodes to the same integer, a bound `u64` within
/// SQLite's integer range decodes to the same number, and an absent optional
/// value binds as `NULL` and decodes as absent.
pub proof fn lemma_bound_values_read_back(
    text: String,
    number: i64,
    unsigned: u64,
    read_text: Result<String, Error>,
    read_int: Result<i64, Error>,
    read_unsigned: Result<i64, Error>,
    read_absent: Result<Option<String>, Error>,
)
    requires
        unsigned.can_bind(),
    ensures
        <String as TryFromValue>::decoding(Some(text.bound_value()), read_text) ==> (read_text matches Ok(
            t,
        ) && t@ == text@),
        <i64 as TryFromValue>::decoding(Some(number.bound_value()), read_int) ==> read_int == Ok::<
            i64,
            Error,
        >(number),
        <i64 as TryFromValue>::decoding(Some(unsigned.bound_value()), read_unsigned) ==> (
        read_unsigned matches Ok(v) && v as int == unsigned as int),
        <Option<String> as TryFromValue>::decoding(Some(None::<String>.bound_value()), read_absent)
            ==> read_absent matches Ok(None),
{
}

/// Every text binds as a `Text` value holding exactly its characters (the
/// empty text included), and reads back as that same text, also through a
/// nullable text column.
pub proof fn lemma_texts_bind_as_themselves(
    s: &str,
    owned: String,
    read: Result<String, Error>,
    read_nullable: Result<Option<String>, Error>,
)
    ensures
        s.bound_value() == DbValueView::Text(s@),
        (&s).bound_value() == DbValueView::Text(s@),
        owned.bound_value() == DbValueView::Text(owned@),
        (&owned).bound_value() == DbValueView::Text(owned@),
        Some(owned).bound_value() == DbValueView::Text(owned@),
        <String as TryFromValue>::decoding(Some(s.bound_value()), read) ==> (read matches Ok(t) && t@
            == s@),
        <Option<String> as TryFromValue>::decoding(Some(s.bound_value()), read_nullable) ==> (
        read_nullable matches Ok(Some(t)) && t@ == s@),
{
}

/// A nullable column decodes as absent exactly when it is absent or `NULL`;
/// any other value decodes to `Some` of what the non-nullable decoding gives
/// (so a text value, even the empty text, decodes to `Some` of that text, and
/// an integer to `Some` of that integer), and fails exactly when that fails.
pub proof fn lemma_nullable_decoding_wraps_plain_decoding(
    value: Option<DbValueView>,
    nullable_text: Result<Option<String>, Error>,
    nullable_int: Result<Option<i64>, Error>,
    text: Seq<char>,
    number: i64,
)
    ensures
        <Option<String> as TryFromValue>::decoding(value, nullable_text) ==> ((nullable_text matches Ok(
            None,
        )) <==> (value is None || value == Some(DbValueView::Null))),
        <Option<i64> as TryFromValue>::decoding(value, nullable_int) ==> ((nullable_int matches Ok(None))
            <==> (value is None || value == Some(DbValueView::Null))),
        <Option<String> as TryFromValue>::decoding(value, nullable_text) ==> (nullable_text matches Ok(
            Some(t),
        ) ==> <String as TryFromValue>::decoding(value, Ok(t))),
        <Option<String> as TryFromValue>::decoding(value, nullable_text) ==> (nullable_text matches Err(
            e,
        ) ==> <String as TryFromValue>::decoding(value, Err(e))),
        <Option<i64> as TryFromValue>::decoding(value, nullable_int) ==> (nullable_int matches Ok(
            Some(i),
        ) ==> <i64 as TryFromValue>::decoding(value, Ok(i))),
        <Option<i64> as TryFromValue>::decoding(value, nullable_int) ==> (nullable_int matches Err(e)
            ==> <i64 as TryFromValue>::decoding(value, Err(e))),
        <Option<String> as TryFromValue>::decoding(Some(DbValueView::Text(text)), nullable_text) ==> (
        nullable_text matches Ok(Some(t)) && t@ == text),
        <Option<i64> as TryFromValue>::decoding(Some(DbValueView::Integer(number)), nullable_int) ==> (
        nullable_int == Ok::<Option<i64>, Error>(Some(number))),
{
}

/// An integer column read as text, stored back as text and read as an
/// integer, gives back the same integer.
pub proof fn lemma_integer_text_round_trip(
    number: i64,
    as_text: Result<String, Error>,
    back: Result<i64, Error>,
)
    requires
        <String as TryFromValue>::decoding(Some(DbValueView::Integer(number)), as_text),
        as_text matches Ok(t) && <i64 as TryFromValue>::decoding(Some(DbValueView::Text(t@)), back),
    ensures
        back == Ok::<i64, Error>(number),
{
    crate::text::lemma_parse_renders_back(number);
}


/// A column read by name gives what reading it by its position gives.
pub proof fn lemma_name_and_position_agree<T: TryFromValue>(row: DbRowView, name: Seq<char>, r: Result<T, Error>)
    requires
        name_lookup(name, row) is Ok,
        (name_lookup(name, row)->Ok_0 as int) < row.values.len(),
    ensures
        try_get_result(row, name_lookup(name, row), r) == try_get_result(
            row,
            position_lookup(name_lookup(name, row)->Ok_0, row),
            r,
        ),
{
}

} // verus!
