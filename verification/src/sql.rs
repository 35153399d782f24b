//! The values that go to and come from the SQLite engine, and the calls
//! into it.

use vstd::prelude::*;

verus! {

/// A value of a column or of a parameter of a statement.
#[derive(Debug, Clone, PartialEq, Eq)]
pub enum SqlValue {
    Null,
    Integer(i64),
    /// A floating-point number, as the bit pattern of an IEEE 754 double.
    Real(u64),
    Text(String),
    Blob(Vec<u8>),
}

/// What a [`SqlValue`] holds, as a mathematical value.
pub enum SqlValueView {
    Null,
    Integer(i64),
    Real(u64),
    Text(Seq<char>),
    Blob(Seq<u8>),
}

impl View for SqlValue {
    type V = SqlValueView;

    open spec fn view(&self) -> SqlValueView {
        match self {
            SqlValue::Null => SqlValueView::Null,
            SqlValue::Integer(i) => SqlValueView::Integer(*i),
            SqlValue::Real(bits) => SqlValueView::Real(*bits),
            SqlValue::Text(t) => SqlValueView::Text(t@),
            SqlValue::Blob(b) => SqlValueView::Blob(b@),
        }
    }
}

/// A value bound to a parameter of a statement.
#[derive(Debug, Clone, PartialEq, Eq)]
pub enum SqlParam {
    Null,
    Integer(i64),
    Text(String),
}

/// What a [`SqlParam`] holds, as a mathematical value.
pub enum SqlParamView {
    Null,
    Integer(i64),
    Text(Seq<char>),
}

impl View for SqlParam {
    type V = SqlParamView;

    open spec fn view(&self) -> SqlParamView {
        match self {
            SqlParam::Null => SqlParamView::Null,
            SqlParam::Integer(i) => SqlParamView::Integer(*i),
            SqlParam::Text(t) => SqlParamView::Text(t@),
        }
    }
}

/// Declares `rusqlite::Connection`, a connection to a database. Nothing is
/// known of what it holds.
#[verifier::external_type_specification]
#[verifier::external_body]
pub struct ExConnection(rusqlite::Connection);

/// Declares `rusqlite::Error`, the engine's report of a failure. Nothing is
/// known of what it holds.
#[verifier::external_type_specification]
#[verifier::external_body]
pub struct ExError(rusqlite::Error);

/// Declares `rusqlite::Row`, a row of the answer to a query. Nothing is
/// known of what it holds.
#[verifier::external_type_specification]
#[verifier::external_body]
pub struct ExRow<'a>(rusqlite::Row<'a>);

/// Declares `rusqlite::types::Value`, the engine's dynamically typed value.
/// Nothing is known of what it holds.
#[verifier::external_type_specification]
#[verifier::external_body]
pub struct ExValue(rusqlite::types::Value);

/// Calls `Connection::open` of `rusqlite`, which opens the database file at
/// a path and creates it where there is none. Nothing is claimed of the
/// outcome.
#[verifier::external_body]
pub(crate) fn open_database(path: &str) -> (opened: Result<
    rusqlite::Connection,
    rusqlite::Error,
>) {
    rusqlite::Connection::open(path)
}

/// Calls `Connection::execute_batch`, which runs statements without
/// parameters one after the other. Nothing is claimed of the outcome.
#[verifier::external_body]
pub(crate) fn run_batch(conn: &rusqlite::Connection, sql: &str) -> (done: Result<
    (),
    rusqlite::Error,
>) {
    conn.execute_batch(sql)
}

/// Calls `Connection::execute` with positional parameters, which runs one
/// statement and gives the number of rows it changed. Nothing is claimed of
/// the outcome.
#[verifier::external_body]
pub(crate) fn run_statement(
    conn: &rusqlite::Connection,
    sql: &str,
    params: &Vec<rusqlite::types::Value>,
) -> (changed: Result<usize, rusqlite::Error>) {
    conn.execute(sql, rusqlite::params_from_iter(params.iter()))
}

/// Calls `Connection::prepare` and `Statement::query_map` with positional
/// parameters, and collects what comes of each row of the answer, read by
/// `read_row`. Nothing is claimed of the outcome.
#[verifier::external_body]
pub(crate) fn query_rows(
    conn: &rusqlite::Connection,
    sql: &str,
    params: &Vec<rusqlite::types::Value>,
    columns: usize,
) -> (rows: Result<Vec<Result<Vec<SqlValue>, rusqlite::Error>>, rusqlite::Error>) {
    let mut stmt = conn.prepare(sql)?;
    let found = rusqlite::params_from_iter(params.iter());
    let rows = stmt.query_map(found, |row| read_row(row, columns))?;
    Ok(rows.collect())
}

/// What a row of an answer holds, column by column: the value of each
/// column as `Row::get` of `rusqlite` reads it, a floating-point number by
/// its bits, and nothing for a column whose value cannot be read.
pub uninterp spec fn row_cells(row: rusqlite::Row<'_>) -> Seq<Option<SqlValueView>>;

/// Calls `Row::get` for a dynamically typed value and hands it over variant
/// by variant, a floating-point number as its bits. The call succeeds
/// exactly for a column that the row has and whose value can be read, and
/// the result is then what the row holds in that column.
#[verifier::external_body]
fn column_value(row: &rusqlite::Row<'_>, index: usize) -> (value: Result<
    SqlValue,
    rusqlite::Error,
>)
    ensures
        value matches Ok(v) ==> index < row_cells(*row).len() && row_cells(*row)[index as int]
            == Some(v@),
        value is Err ==> !(index < row_cells(*row).len() && row_cells(*row)[index as int] is Some),
{
    Ok(match row.get::<usize, rusqlite::types::Value>(index)? {
        rusqlite::types::Value::Null => SqlValue::Null,
        rusqlite::types::Value::Integer(i) => SqlValue::Integer(i),
        rusqlite::types::Value::Real(r) => SqlValue::Real(r.to_bits()),
        rusqlite::types::Value::Text(t) => SqlValue::Text(t),
        rusqlite::types::Value::Blob(b) => SqlValue::Blob(b),
    })
}

/// Whether a row has column `index` and its value can be read.
pub open spec fn cell_is_readable(row: rusqlite::Row<'_>, index: int) -> bool {
    0 <= index < row_cells(row).len() && row_cells(row)[index] is Some
}

/// The first of the first `columns` columns of a row that the row lacks or
/// whose value cannot be read; `columns` where there is none.
pub open spec fn first_unreadable(row: rusqlite::Row<'_>, columns: int) -> int
    decreases columns,
{
    if columns <= 0 {
        0
    } else if first_unreadable(row, columns - 1) < columns - 1 {
        first_unreadable(row, columns - 1)
    } else if cell_is_readable(row, columns - 1) {
        columns
    } else {
        columns - 1
    }
}

/// What `first_unreadable` finds: every column before it can be read, and
/// it cannot be read itself unless it is `columns`.
pub proof fn lemma_first_unreadable(row: rusqlite::Row<'_>, columns: int)
    requires
        0 <= columns,
    ensures
        0 <= first_unreadable(row, columns) <= columns,
        forall|i: int|
            0 <= i < first_unreadable(row, columns) ==> #[trigger] cell_is_readable(row, i),
        first_unreadable(row, columns) < columns ==> !cell_is_readable(
            row,
            first_unreadable(row, columns),
        ),
    decreases columns,
{
    if columns > 0 {
        lemma_first_unreadable(row, columns - 1);
    }
}

/// What an engine value holds, read as a parameter: nothing, an integer or
/// a text.
pub uninterp spec fn param_held(value: rusqlite::types::Value) -> SqlParamView;

/// Makes a `rusqlite::types::Value` of a parameter, variant by variant:
/// `Null` of none, `Integer` of an integer, `Text` of a text. The value
/// holds what the parameter holds.
#[verifier::external_body]
fn engine_param(param: &SqlParam) -> (made: rusqlite::types::Value)
    ensures
        param_held(made) == param@,
{
    match param {
        SqlParam::Null => rusqlite::types::Value::Null,
        SqlParam::Integer(i) => rusqlite::types::Value::Integer(*i),
        SqlParam::Text(t) => rusqlite::types::Value::Text(t.clone()),
    }
}

/// Writes an engine error as text, by its `Display`. Nothing is claimed of
/// the text.
#[verifier::external_body]
pub(crate) fn error_text(error: &rusqlite::Error) -> (text: String) {
    error.to_string()
}

/// Reads the first `columns` values of a row of an answer. Succeeds exactly
/// where the row has that many columns and each of them can be read, with
/// the values that the row holds there, in order; else fails with the
/// engine's error for the first column that cannot be read.
pub(crate) fn read_row(row: &rusqlite::Row<'_>, columns: usize) -> (values: Result<
    Vec<SqlValue>,
    rusqlite::Error,
>)
    ensures
        match values {
            Ok(v) => {
                &&& first_unreadable(*row, columns as int) == columns
                &&& v.len() == columns
                &&& forall|i: int|
                    0 <= i < columns ==> row_cells(*row)[i] == Some((#[trigger] v[i])@)
            },
            Err(_) => first_unreadable(*row, columns as int) < columns,
        },
{
    let mut values: Vec<SqlValue> = Vec::new();
    let mut i: usize = 0;
    while i < columns
        invariant
            i <= columns,
            values.len() == i,
            first_unreadable(*row, i as int) == i,
            forall|j: int| 0 <= j < i ==> row_cells(*row)[j] == Some((#[trigger] values[j])@),
        decreases columns - i,
    {
        match column_value(row, i) {
            Ok(v) => values.push(v),
            Err(e) => {
                proof {
                    lemma_unreadable_stays_first(*row, i as int, columns as int);
                }
                return Err(e);
            },
        }
        i = i + 1;
    }
    Ok(values)
}

/// Once a column cannot be read, it stays the first such column however
/// many more columns are asked for.
proof fn lemma_unreadable_stays_first(row: rusqlite::Row<'_>, at: int, columns: int)
    requires
        0 <= at < columns,
        first_unreadable(row, at) == at,
        !cell_is_readable(row, at),
    ensures
        first_unreadable(row, columns) == at,
    decreases columns,
{
    if columns > at + 1 {
        lemma_unreadable_stays_first(row, at, columns - 1);
    }
}

/// Makes the engine's values of the parameters of a statement: as many, in
/// the same order, each holding what its parameter holds.
pub(crate) fn engine_params(params: &Vec<SqlParam>) -> (made: Vec<rusqlite::types::Value>)
    ensures
        made.len() == params.len(),
        forall|j: int| 0 <= j < params.len() ==> param_held(#[trigger] made[j]) == params[j]@,
{
    let mut made: Vec<rusqlite::types::Value> = Vec::new();
    let mut i: usize = 0;
    while i < params.len()
        invariant
            i <= params.len(),
            made.len() == i,
            forall|j: int| 0 <= j < i ==> param_held(#[trigger] made[j]) == params[j]@,
        decreases params.len() - i,
    {
        made.push(engine_param(&params[i]));
        i = i + 1;
    }
    made
}

} // verus!
