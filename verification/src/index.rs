//! The searchable index of file records: a table of records in an SQLite
//! database, and a full-text table over four of its columns that triggers
//! keep in step with it.

use crate::schema::{
    FileListResponse, FileRecord, FileRecordView, FileSearchResult, FileSearchResultView,
};
use crate::sql::{
    engine_params, error_text, open_database, query_rows, run_batch, run_statement, SqlParam,
    SqlParamView, SqlValue,
};
use crate::storage::{join_paths, joined};
use crate::text::{decimal, decimal_string, opt_chars, opt_str_chars};
use vstd::prelude::*;
use vstd::string::*;

verus! {

/// Settings of a connection: write-ahead log, relaxed syncing, a small
/// cache, temporary tables in memory.
pub const PRAGMA_SQL: &'static str = "PRAGMA journal_mode = WAL; \
    PRAGMA synchronous = NORMAL; \
    PRAGMA cache_size = -2000; \
    PRAGMA temp_store = MEMORY;";

/// The table of records with its indexes, the full-text table over
/// `filename`, `extracted_text`, `ai_description` and `tags`, and the three
/// triggers that carry every insert, delete and update of a record over to
/// the full-text table (an update as a delete and an insert).
pub const SCHEMA_SQL: &'static str =
    "CREATE TABLE IF NOT EXISTS ftms_files (
        id              TEXT PRIMARY KEY,
        filename        TEXT NOT NULL,
        mime_type       TEXT NOT NULL,
        file_path       TEXT NOT NULL,
        file_size       INTEGER NOT NULL,
        extracted_text  TEXT,
        ai_description  TEXT,
        session_id      TEXT,
        channel         TEXT,
        uploaded_at     TEXT NOT NULL,
        tags            TEXT
    );

    CREATE INDEX IF NOT EXISTS idx_ftms_session ON ftms_files(session_id);
    CREATE INDEX IF NOT EXISTS idx_ftms_uploaded ON ftms_files(uploaded_at);
    CREATE INDEX IF NOT EXISTS idx_ftms_mime ON ftms_files(mime_type);

    CREATE VIRTUAL TABLE IF NOT EXISTS ftms_fts USING fts5(
        filename, extracted_text, ai_description, tags,
        content='ftms_files', content_rowid='rowid'
    );

    CREATE TRIGGER IF NOT EXISTS ftms_ai AFTER INSERT ON ftms_files BEGIN
        INSERT INTO ftms_fts(rowid, filename, extracted_text, ai_description, tags)
        VALUES (new.rowid, new.filename, new.extracted_text, new.ai_description, new.tags);
    END;

    CREATE TRIGGER IF NOT EXISTS ftms_ad AFTER DELETE ON ftms_files BEGIN
        INSERT INTO ftms_fts(ftms_fts, rowid, filename, extracted_text, ai_description, tags)
        VALUES ('delete', old.rowid, old.filename, old.extracted_text, old.ai_description,
                old.tags);
    END;

    CREATE TRIGGER IF NOT EXISTS ftms_au AFTER UPDATE ON ftms_files BEGIN
        INSERT INTO ftms_fts(ftms_fts, rowid, filename, extracted_text, ai_description, tags)
        VALUES ('delete', old.rowid, old.filename, old.extracted_text, old.ai_description,
                old.tags);
        INSERT INTO ftms_fts(rowid, filename, extracted_text, ai_description, tags)
        VALUES (new.rowid, new.filename, new.extracted_text, new.ai_description, new.tags);
    END;";

/// Adds a record to the table.
pub const INSERT_SQL: &'static str = "INSERT INTO ftms_files (id, filename, mime_type, file_path, \
    file_size, extracted_text, ai_description, session_id, channel, uploaded_at, tags) \
    VALUES (?1, ?2, ?3, ?4, ?5, ?6, ?7, ?8, ?9, ?10, ?11)";

/// Sets the derived content of the record with a given identifier.
pub const UPDATE_SQL: &'static str =
    "UPDATE ftms_files SET extracted_text = ?1, ai_description = ?2 WHERE id = ?3";

/// Reads the record with a given identifier.
pub const LOOKUP_SQL: &'static str = "SELECT id, filename, mime_type, file_path, file_size, \
    extracted_text, ai_description, session_id, channel, uploaded_at, tags \
    FROM ftms_files WHERE id = ?1";

/// Counts the records; a filter follows.
pub const COUNT_SQL: &'static str = "SELECT COUNT(*) FROM ftms_files ";

/// Reads records; a filter follows.
pub const LIST_SQL: &'static str = "SELECT id, filename, mime_type, file_path, file_size, \
    extracted_text, ai_description, session_id, channel, uploaded_at, tags \
    FROM ftms_files ";

/// Puts the newest records first and takes one page of them.
pub const PAGE_SQL: &'static str = " ORDER BY uploaded_at DESC LIMIT ? OFFSET ?";

/// Reads the records that match a full-text query, best match first, with
/// the score of each.
pub const SEARCH_SQL: &'static str = "SELECT f.id, f.filename, f.mime_type, f.file_path, \
    f.file_size, f.extracted_text, f.ai_description, f.session_id, f.channel, f.uploaded_at, \
    f.tags, ftms_fts.rank \
    FROM ftms_fts JOIN ftms_files f ON f.rowid = ftms_fts.rowid \
    WHERE ftms_fts MATCH ?1 ORDER BY rank LIMIT ?2";

/// The number of columns of a record.
pub const RECORD_COLUMNS: usize = 11;

/// The step of the index's work at which an error came up.
#[derive(Debug, Clone, Copy, PartialEq, Eq, Structural)]
pub enum IndexStep {
    /// Opening the database.
    Open,
    /// Applying the connection settings.
    Configure,
    /// Creating tables and triggers.
    Schema,
    /// Adding a record.
    Insert,
    /// Setting the derived content of a record.
    Update,
    /// Reading a record by its identifier.
    Lookup,
    /// Counting the records of a listing.
    Count,
    /// Reading a page of a listing.
    List,
    /// Running a full-text query.
    Search,
}

/// A failure of the index: the step that failed and what was reported.
#[derive(Debug, Clone, PartialEq, Eq)]
pub struct IndexError {
    pub step: IndexStep,
    pub message: String,
}

/// A column of a row that could not be read as the record asks: it is
/// missing or holds a value of another type.
#[derive(Debug, Clone, Copy, PartialEq, Eq, Structural)]
pub struct RowError {
    pub column: usize,
}

/// The text in column `c` of a row, where the row has one there.
pub open spec fn text_column(row: Seq<SqlValue>, c: int) -> Option<Seq<char>> {
    if 0 <= c < row.len() {
        match row[c] {
            SqlValue::Text(t) => Some(t@),
            _ => None,
        }
    } else {
        None
    }
}

/// The text or the absence of a value in column `c` of a row, where the row
/// has one of the two there.
pub open spec fn optional_text_column(row: Seq<SqlValue>, c: int) -> Option<Option<Seq<char>>> {
    if 0 <= c < row.len() {
        match row[c] {
            SqlValue::Null => Some(None),
            SqlValue::Text(t) => Some(Some(t@)),
            _ => None,
        }
    } else {
        None
    }
}

/// The integer in column `c` of a row, where the row has one there.
pub open spec fn integer_column(row: Seq<SqlValue>, c: int) -> Option<i64> {
    if 0 <= c < row.len() {
        match row[c] {
            SqlValue::Integer(i) => Some(i),
            _ => None,
        }
    } else {
        None
    }
}

/// The bits of the floating-point number in column `c` of a row, where the
/// row has one there.
pub open spec fn real_column(row: Seq<SqlValue>, c: int) -> Option<u64> {
    if 0 <= c < row.len() {
        match row[c] {
            SqlValue::Real(bits) => Some(bits),
            _ => None,
        }
    } else {
        None
    }
}

/// A stored size read back from its column: the integer itself, and for a
/// negative one the number it stands for in 64 bits.
pub open spec fn size_of_integer(i: i64) -> u64 {
    if i >= 0 {
        i as u64
    } else {
        (i + 0x1_0000_0000_0000_0000) as u64
    }
}

/// The first of the record's columns that a row lacks or holds with
/// another type than the record asks; `RECORD_COLUMNS` where there is none.
pub open spec fn first_bad_column(row: Seq<SqlValue>) -> int {
    if text_column(row, 0) is None {
        0
    } else if text_column(row, 1) is None {
        1
    } else if text_column(row, 2) is None {
        2
    } else if text_column(row, 3) is None {
        3
    } else if integer_column(row, 4) is None {
        4
    } else if optional_text_column(row, 5) is None {
        5
    } else if optional_text_column(row, 6) is None {
        6
    } else if optional_text_column(row, 7) is None {
        7
    } else if optional_text_column(row, 8) is None {
        8
    } else if text_column(row, 9) is None {
        9
    } else if optional_text_column(row, 10) is None {
        10
    } else {
        11
    }
}

/// The record that a row holds in its first eleven columns, or the first
/// column that cannot be read.
pub open spec fn record_of(row: Seq<SqlValue>) -> Result<FileRecordView, RowError> {
    if first_bad_column(row) < 11 {
        Err(RowError { column: first_bad_column(row) as usize })
    } else {
        Ok(
            FileRecordView {
                id: text_column(row, 0)->0,
                filename: text_column(row, 1)->0,
                mime_type: text_column(row, 2)->0,
                file_path: text_column(row, 3)->0,
                file_size: size_of_integer(integer_column(row, 4)->0),
                extracted_text: optional_text_column(row, 5)->0,
                ai_description: optional_text_column(row, 6)->0,
                session_id: optional_text_column(row, 7)->0,
                channel: optional_text_column(row, 8)->0,
                uploaded_at: text_column(row, 9)->0,
                tags: optional_text_column(row, 10)->0,
            },
        )
    }
}

/// Reads column `c` of a row as text.
pub fn text_at(row: &Vec<SqlValue>, c: usize) -> (text: Result<String, RowError>)
    ensures
        match text {
            Ok(t) => text_column(row@, c as int) == Some(t@),
            Err(e) => text_column(row@, c as int) is None && e.column == c,
        },
{
    if c < row.len() {
        match &row[c] {
            SqlValue::Text(t) => Ok(t.clone()),
            _ => Err(RowError { column: c }),
        }
    } else {
        Err(RowError { column: c })
    }
}

/// Reads column `c` of a row as text that may be absent.
pub fn optional_text_at(row: &Vec<SqlValue>, c: usize) -> (text: Result<Option<String>, RowError>)
    ensures
        match text {
            Ok(t) => optional_text_column(row@, c as int) == Some(opt_chars(t)),
            Err(e) => optional_text_column(row@, c as int) is None && e.column == c,
        },
{
    if c < row.len() {
        match &row[c] {
            SqlValue::Null => Ok(None),
            SqlValue::Text(t) => Ok(Some(t.clone())),
            _ => Err(RowError { column: c }),
        }
    } else {
        Err(RowError { column: c })
    }
}

/// Reads column `c` of a row as an integer.
pub fn integer_at(row: &Vec<SqlValue>, c: usize) -> (number: Result<i64, RowError>)
    ensures
        match number {
            Ok(i) => integer_column(row@, c as int) == Some(i),
            Err(e) => integer_column(row@, c as int) is None && e.column == c,
        },
{
    if c < row.len() {
        match &row[c] {
            SqlValue::Integer(i) => Ok(*i),
            _ => Err(RowError { column: c }),
        }
    } else {
        Err(RowError { column: c })
    }
}

/// Reads column `c` of a row as the bits of a floating-point number.
pub fn real_at(row: &Vec<SqlValue>, c: usize) -> (bits: Result<u64, RowError>)
    ensures
        match bits {
            Ok(b) => real_column(row@, c as int) == Some(b),
            Err(e) => real_column(row@, c as int) is None && e.column == c,
        },
{
    if c < row.len() {
        match &row[c] {
            SqlValue::Real(b) => Ok(*b),
            _ => Err(RowError { column: c }),
        }
    } else {
        Err(RowError { column: c })
    }
}

/// Reads a stored size back from its column.
pub fn size_from_integer(i: i64) -> (size: u64)
    ensures
        size == size_of_integer(i),
{
    if i >= 0 {
        i as u64
    } else {
        u64::MAX - ((-(i + 1)) as u64)
    }
}

/// Reads a record from the first eleven columns of a row.
pub fn row_to_record(row: &Vec<SqlValue>) -> (record: Result<FileRecord, RowError>)
    ensures
        match record {
            Ok(r) => record_of(row@) == Ok::<FileRecordView, RowError>(r@),
            Err(e) => record_of(row@) == Err::<FileRecordView, RowError>(e),
        },
{
    let id = match text_at(row, 0) {
        Ok(v) => v,
        Err(e) => {
            return Err(e);
        },
    };
    let filename = match text_at(row, 1) {
        Ok(v) => v,
        Err(e) => {
            return Err(e);
        },
    };
    let mime_type = match text_at(row, 2) {
        Ok(v) => v,
        Err(e) => {
            return Err(e);
        },
    };
    let file_path = match text_at(row, 3) {
        Ok(v) => v,
        Err(e) => {
            return Err(e);
        },
    };
    let file_size = match integer_at(row, 4) {
        Ok(v) => size_from_integer(v),
        Err(e) => {
            return Err(e);
        },
    };
    let extracted_text = match optional_text_at(row, 5) {
        Ok(v) => v,
        Err(e) => {
            return Err(e);
        },
    };
    let ai_description = match optional_text_at(row, 6) {
        Ok(v) => v,
        Err(e) => {
            return Err(e);
        },
    };
    let session_id = match optional_text_at(row, 7) {
        Ok(v) => v,
        Err(e) => {
            return Err(e);
        },
    };
    let channel = match optional_text_at(row, 8) {
        Ok(v) => v,
        Err(e) => {
            return Err(e);
        },
    };
    let uploaded_at = match text_at(row, 9) {
        Ok(v) => v,
        Err(e) => {
            return Err(e);
        },
    };
    let tags = match optional_text_at(row, 10) {
        Ok(v) => v,
        Err(e) => {
            return Err(e);
        },
    };
    Ok(
        FileRecord {
            id,
            filename,
            mime_type,
            file_path,
            file_size,
            extracted_text,
            ai_description,
            session_id,
            channel,
            uploaded_at,
            tags,
        },
    )
}

/// The parameter that carries a text which may be absent.
pub open spec fn optional_param(text: Option<Seq<char>>) -> SqlParamView {
    match text {
        Some(t) => SqlParamView::Text(t),
        None => SqlParamView::Null,
    }
}

/// The views of a list of parameters.
pub open spec fn params_of(params: Seq<SqlParam>) -> Seq<SqlParamView> {
    Seq::new(params.len(), |i: int| params[i]@)
}

/// The views of a list of strings.
pub open spec fn strings_of(strings: Seq<String>) -> Seq<Seq<char>> {
    Seq::new(strings.len(), |i: int| strings[i]@)
}

/// The views of a list of records.
pub open spec fn records_of(records: Seq<FileRecord>) -> Seq<FileRecordView> {
    Seq::new(records.len(), |i: int| records[i]@)
}

/// The parameters of `INSERT_SQL` for a record: its eleven fields in the
/// order of the columns. A size beyond the engine's 64-bit signed integers
/// has none.
pub open spec fn insert_params_of(record: FileRecordView) -> Option<Seq<SqlParamView>> {
    if record.file_size > i64::MAX {
        None
    } else {
        Some(
            seq![
                SqlParamView::Text(record.id),
                SqlParamView::Text(record.filename),
                SqlParamView::Text(record.mime_type),
                SqlParamView::Text(record.file_path),
                SqlParamView::Integer(record.file_size as i64),
                optional_param(record.extracted_text),
                optional_param(record.ai_description),
                optional_param(record.session_id),
                optional_param(record.channel),
                SqlParamView::Text(record.uploaded_at),
                optional_param(record.tags),
            ],
        )
    }
}

/// The parameters of `UPDATE_SQL`: the new text, the new description, and
/// the identifier of the record.
pub open spec fn update_params_of(
    id: Seq<char>,
    text: Option<Seq<char>>,
    description: Option<Seq<char>>,
) -> Seq<SqlParamView> {
    seq![optional_param(text), optional_param(description), SqlParamView::Text(id)]
}

/// The parameters of `SEARCH_SQL`: the query, and the most rows to return,
/// which is the limit or the engine's greatest integer where the limit is
/// beyond it.
pub open spec fn search_params_of(query: Seq<char>, limit: usize) -> Seq<SqlParamView> {
    seq![
        SqlParamView::Text(query),
        SqlParamView::Integer(
            if limit <= i64::MAX {
                limit as i64
            } else {
                i64::MAX
            },
        ),
    ]
}

/// The condition of a listing's filter: nothing where there is no filter,
/// else `WHERE` and a test for each option that is set, joined by `AND`.
/// The session is tested for equality, the MIME type for the prefix.
pub open spec fn where_clause(
    session_id: Option<Seq<char>>,
    mime_prefix: Option<Seq<char>>,
) -> Seq<char> {
    match (session_id, mime_prefix) {
        (None, None) => Seq::empty(),
        (Some(_), None) => "WHERE session_id = ?"@,
        (None, Some(_)) => "WHERE instr(mime_type, ?) = 1"@,
        (Some(_), Some(_)) => "WHERE session_id = ? AND instr(mime_type, ?) = 1"@,
    }
}

/// The values that the condition of a filter refers to: the session where
/// it is set, then the prefix where it is set.
pub open spec fn filter_values(
    session_id: Option<Seq<char>>,
    mime_prefix: Option<Seq<char>>,
) -> Seq<Seq<char>> {
    let first: Seq<Seq<char>> = match session_id {
        Some(s) => seq![s],
        None => seq![],
    };
    let second: Seq<Seq<char>> = match mime_prefix {
        Some(p) => seq![p],
        None => seq![],
    };
    first + second
}

/// The values of a page query: those of the filter, then the limit and the
/// offset in decimal notation.
pub open spec fn page_values(
    session_id: Option<Seq<char>>,
    mime_prefix: Option<Seq<char>>,
    offset: usize,
    limit: usize,
) -> Seq<Seq<char>> {
    filter_values(session_id, mime_prefix) + seq![decimal(limit as nat), decimal(offset as nat)]
}

/// Whether a column holds the value that a parameter carried.
pub open spec fn holds_param(value: SqlValue, param: SqlParamView) -> bool {
    match param {
        SqlParamView::Null => value is Null,
        SqlParamView::Integer(i) => value == SqlValue::Integer(i),
        SqlParamView::Text(t) => value matches SqlValue::Text(s) && s@ == t,
    }
}

/// Whether a row holds, column by column, the values that a list of
/// parameters carried.
pub open spec fn row_holds(row: Seq<SqlValue>, params: Seq<SqlParamView>) -> bool {
    &&& row.len() >= params.len()
    &&& forall|i: int| 0 <= i < params.len() ==> holds_param(#[trigger] row[i], params[i])
}

/// A record is read back as it was inserted: a row that holds the values
/// the record was inserted with is read as that record.
pub proof fn lemma_inserted_record_reads_back(record: FileRecordView, row: Seq<SqlValue>)
    requires
        insert_params_of(record) matches Some(params) && row_holds(row, params),
    ensures
        record_of(row) == Ok::<FileRecordView, RowError>(record),
{
    let params = insert_params_of(record)->0;
    assert(holds_param(row[0], params[0]));
    assert(holds_param(row[1], params[1]));
    assert(holds_param(row[2], params[2]));
    assert(holds_param(row[3], params[3]));
    assert(holds_param(row[4], params[4]));
    assert(holds_param(row[5], params[5]));
    assert(holds_param(row[6], params[6]));
    assert(holds_param(row[7], params[7]));
    assert(holds_param(row[8], params[8]));
    assert(holds_param(row[9], params[9]));
    assert(holds_param(row[10], params[10]));
}

/// After an update of its content a record is read back with the new text
/// and the new description and is otherwise unchanged: a row that holds the
/// values the record was inserted with, but for the two that the update
/// set, is read as the record with these two fields replaced.
pub proof fn lemma_updated_record_reads_back(
    record: FileRecordView,
    text: Option<Seq<char>>,
    description: Option<Seq<char>>,
    row: Seq<SqlValue>,
)
    requires
        insert_params_of(record) matches Some(params) && row_holds(
            row,
            params.update(5, update_params_of(record.id, text, description)[0]).update(
                6,
                update_params_of(record.id, text, description)[1],
            ),
        ),
    ensures
        record_of(row) == Ok::<FileRecordView, RowError>(
            FileRecordView { extracted_text: text, ai_description: description, ..record },
        ),
{
    let inserted = insert_params_of(record)->0;
    let params = inserted.update(5, optional_param(text)).update(6, optional_param(description));
    assert(holds_param(row[0], params[0]));
    assert(holds_param(row[1], params[1]));
    assert(holds_param(row[2], params[2]));
    assert(holds_param(row[3], params[3]));
    assert(holds_param(row[4], params[4]));
    assert(holds_param(row[5], params[5]));
    assert(holds_param(row[6], params[6]));
    assert(holds_param(row[7], params[7]));
    assert(holds_param(row[8], params[8]));
    assert(holds_param(row[9], params[9]));
    assert(holds_param(row[10], params[10]));
}

/// The condition of a filter holds no value of the caller: it is the same
/// for any two filters that set the same options.
pub proof fn lemma_condition_holds_no_value(
    session_a: Option<Seq<char>>,
    prefix_a: Option<Seq<char>>,
    session_b: Option<Seq<char>>,
    prefix_b: Option<Seq<char>>,
)
    requires
        session_a is Some == session_b is Some,
        prefix_a is Some == prefix_b is Some,
    ensures
        where_clause(session_a, prefix_a) == where_clause(session_b, prefix_b),
{
}

/// The parameter for a text that may be absent.
pub fn optional_text_param(text: &Option<String>) -> (param: SqlParam)
    ensures
        param@ == optional_param(opt_chars(*text)),
{
    match text {
        Some(t) => SqlParam::Text(t.clone()),
        None => SqlParam::Null,
    }
}

/// The parameter for a borrowed text that may be absent.
pub fn optional_str_param(text: Option<&str>) -> (param: SqlParam)
    ensures
        param@ == optional_param(opt_str_chars(text)),
{
    match text {
        Some(t) => SqlParam::Text(t.to_owned()),
        None => SqlParam::Null,
    }
}

/// The parameters with which a record is inserted, or `None` where its size
/// is beyond what the engine's integers hold.
pub fn insert_params(record: &FileRecord) -> (params: Option<Vec<SqlParam>>)
    ensures
        match params {
            Some(p) => insert_params_of(record@) == Some(params_of(p@)),
            None => insert_params_of(record@) is None,
        },
{
    if record.file_size > i64::MAX as u64 {
        return None;
    }
    let mut params: Vec<SqlParam> = Vec::new();
    params.push(SqlParam::Text(record.id.clone()));
    params.push(SqlParam::Text(record.filename.clone()));
    params.push(SqlParam::Text(record.mime_type.clone()));
    params.push(SqlParam::Text(record.file_path.clone()));
    params.push(SqlParam::Integer(record.file_size as i64));
    params.push(optional_text_param(&record.extracted_text));
    params.push(optional_text_param(&record.ai_description));
    params.push(optional_text_param(&record.session_id));
    params.push(optional_text_param(&record.channel));
    params.push(SqlParam::Text(record.uploaded_at.clone()));
    params.push(optional_text_param(&record.tags));
    assert(params_of(params@) =~= insert_params_of(record@)->0);
    Some(params)
}

/// The parameters with which the derived content of a record is set.
pub fn update_params(id: &str, text: Option<&str>, description: Option<&str>) -> (params: Vec<
    SqlParam,
>)
    ensures
        params_of(params@) == update_params_of(
            id@,
            opt_str_chars(text),
            opt_str_chars(description),
        ),
{
    let mut params: Vec<SqlParam> = Vec::new();
    params.push(optional_str_param(text));
    params.push(optional_str_param(description));
    params.push(SqlParam::Text(id.to_owned()));
    assert(params_of(params@) =~= update_params_of(
        id@,
        opt_str_chars(text),
        opt_str_chars(description),
    ));
    params
}

/// The parameters with which a record is looked up: its identifier.
pub fn lookup_params(id: &str) -> (params: Vec<SqlParam>)
    ensures
        params_of(params@) == seq![SqlParamView::Text(id@)],
{
    let mut params: Vec<SqlParam> = Vec::new();
    params.push(SqlParam::Text(id.to_owned()));
    assert(params_of(params@) =~= seq![SqlParamView::Text(id@)]);
    params
}

/// The parameters with which a full-text query is run.
pub fn search_params(query: &str, limit: usize) -> (params: Vec<SqlParam>)
    ensures
        params_of(params@) == search_params_of(query@, limit),
{
    let wide: u64 = limit as u64;
    let most: i64 = if wide <= i64::MAX as u64 {
        wide as i64
    } else {
        i64::MAX
    };
    let mut params: Vec<SqlParam> = Vec::new();
    params.push(SqlParam::Text(query.to_owned()));
    params.push(SqlParam::Integer(most));
    assert(params_of(params@) =~= search_params_of(query@, limit));
    params
}

/// Build the condition of a listing and the values of its two queries: the
/// `WHERE` clause, the values of the count query, and the values of the
/// page query.
pub fn build_filter(
    session_id: Option<&str>,
    mime_prefix: Option<&str>,
    offset: usize,
    limit: usize,
) -> (filter: (String, Vec<String>, Vec<String>))
    ensures
        filter.0@ == where_clause(opt_str_chars(session_id), opt_str_chars(mime_prefix)),
        strings_of(filter.1@) == filter_values(
            opt_str_chars(session_id),
            opt_str_chars(mime_prefix),
        ),
        strings_of(filter.2@) == page_values(
            opt_str_chars(session_id),
            opt_str_chars(mime_prefix),
            offset,
            limit,
        ),
{
    let mut count_params: Vec<String> = Vec::new();
    let mut query_params: Vec<String> = Vec::new();
    if let Some(sid) = session_id {
        count_params.push(sid.to_owned());
        query_params.push(sid.to_owned());
    }
    if let Some(prefix) = mime_prefix {
        count_params.push(prefix.to_owned());
        query_params.push(prefix.to_owned());
    }
    let where_sql = match (session_id, mime_prefix) {
        (None, None) => String::new(),
        (Some(_), None) => String::from_str("WHERE session_id = ?"),
        (None, Some(_)) => String::from_str("WHERE instr(mime_type, ?) = 1"),
        (Some(_), Some(_)) => String::from_str("WHERE session_id = ? AND instr(mime_type, ?) = 1"),
    };
    assert(strings_of(count_params@) =~= filter_values(
        opt_str_chars(session_id),
        opt_str_chars(mime_prefix),
    ));
    assert(strings_of(query_params@) =~= strings_of(count_params@));
    query_params.push(decimal_string(limit as u64));
    query_params.push(decimal_string(offset as u64));
    assert(strings_of(query_params@) =~= page_values(
        opt_str_chars(session_id),
        opt_str_chars(mime_prefix),
        offset,
        limit,
    ));
    (where_sql, count_params, query_params)
}

/// Text parameters for a list of strings, in order.
pub fn text_params(values: &Vec<String>) -> (params: Vec<SqlParam>)
    ensures
        params_of(params@) == Seq::new(
            values.len() as nat,
            |i: int| SqlParamView::Text(values[i]@),
        ),
{
    let mut params: Vec<SqlParam> = Vec::new();
    let mut i: usize = 0;
    while i < values.len()
        invariant
            i <= values.len(),
            params.len() == i,
            forall|j: int| 0 <= j < i ==> params[j]@ == SqlParamView::Text(values[j]@),
        decreases values.len() - i,
    {
        params.push(SqlParam::Text(values[i].clone()));
        i = i + 1;
    }
    assert(params_of(params@) =~= Seq::new(
        values.len() as nat,
        |i: int| SqlParamView::Text(values[i]@),
    ));
    params
}

/// The statement that reads one page of a listing: the opening, the
/// condition of the filter, and the order and the page.
pub fn page_statement(where_sql: &str) -> (sql: String)
    ensures
        sql@ == LIST_SQL@ + where_sql@ + PAGE_SQL@,
{
    let mut sql = LIST_SQL.to_owned();
    sql.append(where_sql);
    sql.append(PAGE_SQL);
    sql
}

/// The statement that counts the records of a listing: the opening and the
/// condition of the filter.
pub fn count_statement(where_sql: &str) -> (sql: String)
    ensures
        sql@ == COUNT_SQL@ + where_sql@,
{
    let mut sql = COUNT_SQL.to_owned();
    sql.append(where_sql);
    sql
}

/// The views of a list of search results.
pub open spec fn hits_of(hits: Seq<FileSearchResult>) -> Seq<FileSearchResultView> {
    Seq::new(hits.len(), |i: int| hits[i]@)
}

/// Whether every row of an answer came without an error of the engine.
pub open spec fn all_rows_came(rows: Seq<Result<Vec<SqlValue>, rusqlite::Error>>) -> bool {
    forall|i: int| 0 <= i < rows.len() ==> (#[trigger] rows[i]) is Ok
}

/// The records among the rows of an answer, in their order: a row counts
/// where it came without an error and holds a record.
pub open spec fn kept_records(
    rows: Seq<Result<Vec<SqlValue>, rusqlite::Error>>,
) -> Seq<FileRecordView>
    decreases rows.len(),
{
    if rows.len() == 0 {
        Seq::empty()
    } else {
        let front = kept_records(rows.drop_last());
        match rows.last() {
            Ok(values) => match record_of(values@) {
                Ok(record) => front.push(record),
                Err(_) => front,
            },
            Err(_) => front,
        }
    }
}

/// The search result that a row holds: a record in its first eleven
/// columns and a score in the twelfth.
pub open spec fn hit_of(row: Seq<SqlValue>) -> Option<FileSearchResultView> {
    match (record_of(row), real_column(row, 11)) {
        (Ok(file), Some(rank_bits)) => Some(FileSearchResultView { file, rank_bits }),
        _ => None,
    }
}

/// The search results among the rows of an answer, in their order: a row
/// counts where it came without an error and holds a search result.
pub open spec fn kept_hits(
    rows: Seq<Result<Vec<SqlValue>, rusqlite::Error>>,
) -> Seq<FileSearchResultView>
    decreases rows.len(),
{
    if rows.len() == 0 {
        Seq::empty()
    } else {
        let front = kept_hits(rows.drop_last());
        match rows.last() {
            Ok(values) => match hit_of(values@) {
                Some(hit) => front.push(hit),
                None => front,
            },
            Err(_) => front,
        }
    }
}

/// The number that the answer to a count query holds: the integer in the
/// first column of its first row, where that row came without an error and
/// the integer is a count that fits the machine's word.
pub open spec fn count_of(rows: Seq<Result<Vec<SqlValue>, rusqlite::Error>>) -> Option<usize> {
    if rows.len() == 0 {
        None
    } else {
        match rows[0] {
            Ok(values) => match integer_column(values@, 0) {
                Some(n) => if 0 <= n <= usize::MAX {
                    Some(n as usize)
                } else {
                    None
                },
                None => None,
            },
            Err(_) => None,
        }
    }
}

/// What the answer to a lookup holds: nothing where it has no row, the
/// record of its first row where that row came without an error and holds
/// one, and a failure otherwise.
pub open spec fn lookup_of(rows: Seq<Result<Vec<SqlValue>, rusqlite::Error>>) -> Result<
    Option<FileRecordView>,
    (),
> {
    if rows.len() == 0 {
        Ok(None)
    } else {
        match rows[0] {
            Ok(values) => match record_of(values@) {
                Ok(record) => Ok(Some(record)),
                Err(_) => Err(()),
            },
            Err(_) => Err(()),
        }
    }
}

/// What is reported of a row that cannot be read.
pub open spec fn row_message(column: usize) -> Seq<char> {
    "column "@ + decimal(column as nat) + " of the row cannot be read"@
}

/// The failure of a step with the engine's report of it.
fn failure(step: IndexStep, error: &rusqlite::Error) -> (failed: IndexError)
    ensures
        failed.step == step,
{
    IndexError { step, message: error_text(error) }
}

/// What a step comes to, given what the engine answered: the answer itself
/// where the engine gave one, and the failure of that step, with the
/// engine's report, where it gave an error.
pub fn settle<T>(step: IndexStep, answer: Result<T, rusqlite::Error>) -> (settled: Result<
    T,
    IndexError,
>)
    ensures
        match answer {
            Ok(value) => settled == Ok::<T, IndexError>(value),
            Err(_) => settled matches Err(e) && e.step == step,
        },
{
    match answer {
        Ok(value) => Ok(value),
        Err(e) => Err(failure(step, &e)),
    }
}

/// The failure of a step with a report of the library's own.
pub fn failure_with(step: IndexStep, message: &str) -> (failed: IndexError)
    ensures
        failed.step == step,
        failed.message@ == message@,
{
    IndexError { step, message: message.to_owned() }
}

/// The failure of a step over a row that cannot be read.
pub fn row_failure(step: IndexStep, error: RowError) -> (failed: IndexError)
    ensures
        failed.step == step,
        failed.message@ == row_message(error.column),
{
    let mut message = String::from_str("column ");
    message.append(decimal_string(error.column as u64).as_str());
    message.append(" of the row cannot be read");
    IndexError { step, message }
}

/// Reads a search result from the twelve columns of a row.
pub fn row_to_hit(row: &Vec<SqlValue>) -> (hit: Option<FileSearchResult>)
    ensures
        match hit {
            Some(h) => hit_of(row@) == Some(h@),
            None => hit_of(row@) is None,
        },
{
    match row_to_record(row) {
        Ok(file) => match real_at(row, 11) {
            Ok(rank_bits) => Some(FileSearchResult { file, rank_bits }),
            Err(_) => None,
        },
        Err(_) => None,
    }
}

/// Keeps the records among the rows of an answer, in their order, and
/// drops the rows that hold no record. Fails, with the engine's report,
/// where a row came with an error.
pub fn collect_records(
    rows: &Vec<Result<Vec<SqlValue>, rusqlite::Error>>,
    step: IndexStep,
) -> (files: Result<Vec<FileRecord>, IndexError>)
    ensures
        match files {
            Ok(files) => all_rows_came(rows@) && records_of(files@) == kept_records(rows@),
            Err(e) => !all_rows_came(rows@) && e.step == step,
        },
{
    let mut files: Vec<FileRecord> = Vec::new();
    let mut i: usize = 0;
    while i < rows.len()
        invariant
            i <= rows.len(),
            all_rows_came(rows@.take(i as int)),
            records_of(files@) == kept_records(rows@.take(i as int)),
        decreases rows.len() - i,
    {
        proof {
            assert(rows@.take(i + 1).drop_last() == rows@.take(i as int));
            assert(rows@.take(i + 1).last() == rows@[i as int]);
        }
        let ghost before = records_of(files@);
        match &rows[i] {
            Ok(values) => match row_to_record(values) {
                Ok(record) => {
                    files.push(record);
                    assert(records_of(files@) =~= before.push(record@));
                },
                Err(_) => {},
            },
            Err(e) => {
                return Err(failure(step, e));
            },
        }
        assert(all_rows_came(rows@.take(i + 1))) by {
            assert forall|j: int| 0 <= j < i + 1 implies (#[trigger] rows@.take(
                i + 1,
            )[j]) is Ok by {
                if j < i {
                    assert(rows@.take(i as int)[j] is Ok);
                }
            }
        }
        i = i + 1;
    }
    assert(rows@.take(rows.len() as int) == rows@);
    Ok(files)
}

/// Keeps the search results among the rows of an answer, in their order,
/// and drops the rows that hold no search result. Fails, with the engine's
/// report, where a row came with an error.
pub fn collect_hits(rows: &Vec<Result<Vec<SqlValue>, rusqlite::Error>>) -> (hits: Result<
    Vec<FileSearchResult>,
    IndexError,
>)
    ensures
        match hits {
            Ok(hits) => all_rows_came(rows@) && hits_of(hits@) == kept_hits(rows@),
            Err(e) => !all_rows_came(rows@) && e.step == IndexStep::Search,
        },
{
    let mut hits: Vec<FileSearchResult> = Vec::new();
    let mut i: usize = 0;
    while i < rows.len()
        invariant
            i <= rows.len(),
            all_rows_came(rows@.take(i as int)),
            hits_of(hits@) == kept_hits(rows@.take(i as int)),
        decreases rows.len() - i,
    {
        proof {
            assert(rows@.take(i + 1).drop_last() == rows@.take(i as int));
            assert(rows@.take(i + 1).last() == rows@[i as int]);
        }
        let ghost before = hits_of(hits@);
        match &rows[i] {
            Ok(values) => match row_to_hit(values) {
                Some(hit) => {
                    hits.push(hit);
                    assert(hits_of(hits@) =~= before.push(hit@));
                },
                None => {},
            },
            Err(e) => {
                return Err(failure(IndexStep::Search, e));
            },
        }
        assert(all_rows_came(rows@.take(i + 1))) by {
            assert forall|j: int| 0 <= j < i + 1 implies (#[trigger] rows@.take(
                i + 1,
            )[j]) is Ok by {
                if j < i {
                    assert(rows@.take(i as int)[j] is Ok);
                }
            }
        }
        i = i + 1;
    }
    assert(rows@.take(rows.len() as int) == rows@);
    Ok(hits)
}

/// Reads the number from the answer to a count query.
pub fn count_outcome(rows: &Vec<Result<Vec<SqlValue>, rusqlite::Error>>) -> (total: Result<
    usize,
    IndexError,
>)
    ensures
        match total {
            Ok(n) => count_of(rows@) == Some(n),
            Err(e) => count_of(rows@) is None && e.step == IndexStep::Count,
        },
{
    if rows.len() == 0 {
        return Err(failure_with(IndexStep::Count, "the count query returned no row"));
    }
    match &rows[0] {
        Ok(values) => match integer_at(values, 0) {
            Ok(n) => {
                if n >= 0 && n as u64 <= usize::MAX as u64 {
                    Ok(n as usize)
                } else {
                    Err(failure_with(IndexStep::Count, "the count is out of range"))
                }
            },
            Err(e) => Err(row_failure(IndexStep::Count, e)),
        },
        Err(e) => Err(failure(IndexStep::Count, e)),
    }
}

/// Reads the record, if there is one, from the answer to a lookup.
pub fn lookup_outcome(rows: &Vec<Result<Vec<SqlValue>, rusqlite::Error>>) -> (found: Result<
    Option<FileRecord>,
    IndexError,
>)
    ensures
        match found {
            Ok(Some(record)) => lookup_of(rows@) == Ok::<Option<FileRecordView>, ()>(
                Some(record@),
            ),
            Ok(None) => lookup_of(rows@) == Ok::<Option<FileRecordView>, ()>(None),
            Err(e) => lookup_of(rows@) is Err && e.step == IndexStep::Lookup,
        },
{
    if rows.len() == 0 {
        return Ok(None);
    }
    match &rows[0] {
        Ok(values) => match row_to_record(values) {
            Ok(record) => Ok(Some(record)),
            Err(e) => Err(row_failure(IndexStep::Lookup, e)),
        },
        Err(e) => Err(failure(IndexStep::Lookup, e)),
    }
}

/// Where the index of a workspace is kept: the directory `ftms` below the
/// workspace directory, and the file `ftms.db` in it.
pub fn database_location(workspace_dir: &str) -> (location: (String, String))
    ensures
        location.0@ == joined(workspace_dir@, "ftms"@),
        location.1@ == joined(joined(workspace_dir@, "ftms"@), "ftms.db"@),
{
    let directory = join_paths(workspace_dir, "ftms");
    let file = join_paths(directory.as_str(), "ftms.db");
    (directory, file)
}

/// SQLite-backed file index with full-text search.
pub struct FileIndex {
    conn: rusqlite::Connection,
}

impl FileIndex {
    /// Opens the index in the database file at `db_path`, creating file,
    /// tables and triggers where they do not exist. The directory of the
    /// file has to exist.
    pub fn new(db_path: &str) -> (index: Result<FileIndex, IndexError>)
        ensures
            index matches Err(e) ==> e.step == IndexStep::Open || e.step == IndexStep::Configure
                || e.step == IndexStep::Schema,
    {
        let conn = match settle(IndexStep::Open, open_database(db_path)) {
            Ok(conn) => conn,
            Err(e) => {
                return Err(e);
            },
        };
        if let Err(e) = settle(IndexStep::Configure, run_batch(&conn, PRAGMA_SQL)) {
            return Err(e);
        }
        if let Err(e) = settle(IndexStep::Schema, run_batch(&conn, SCHEMA_SQL)) {
            return Err(e);
        }
        Ok(FileIndex { conn })
    }

    /// Insert a new file record. Fails where the engine refuses the record,
    /// as it does for an identifier that the table holds already.
    pub fn insert(&self, record: &FileRecord) -> (done: Result<(), IndexError>)
        ensures
            record.file_size > i64::MAX ==> (done matches Err(e) && e.message@
                == "the file size is out of range"@),
            done matches Err(e) ==> e.step == IndexStep::Insert,
    {
        let params = match insert_params(record) {
            Some(params) => params,
            None => {
                return Err(failure_with(IndexStep::Insert, "the file size is out of range"));
            },
        };
        let changed = run_statement(&self.conn, INSERT_SQL, &engine_params(&params));
        match settle(IndexStep::Insert, changed) {
            Ok(_) => Ok(()),
            Err(e) => Err(e),
        }
    }

    /// Update extracted text and description of the record with the given
    /// identifier. Where no record has it, nothing changes and nothing fails.
    pub fn update_content(&self, id: &str, text: Option<&str>, description: Option<&str>) -> (done:
        Result<(), IndexError>)
        ensures
            done matches Err(e) ==> e.step == IndexStep::Update,
    {
        let params = update_params(id, text, description);
        let changed = run_statement(&self.conn, UPDATE_SQL, &engine_params(&params));
        match settle(IndexStep::Update, changed) {
            Ok(_) => Ok(()),
            Err(e) => Err(e),
        }
    }

    /// Get a file record by its identifier; `Ok(None)` where there is none.
    pub fn get(&self, id: &str) -> (found: Result<Option<FileRecord>, IndexError>)
        ensures
            found matches Err(e) ==> e.step == IndexStep::Lookup,
    {
        let params = lookup_params(id);
        let answer = query_rows(&self.conn, LOOKUP_SQL, &engine_params(&params), RECORD_COLUMNS);
        match settle(IndexStep::Lookup, answer) {
            Ok(rows) => lookup_outcome(&rows),
            Err(e) => Err(e),
        }
    }

    /// List files with pagination, newest first, optionally filtered by
    /// session and by a prefix of the MIME type. `total` counts the
    /// records that pass the filter, on all pages.
    pub fn list(
        &self,
        offset: usize,
        limit: usize,
        session_id: Option<&str>,
        mime_prefix: Option<&str>,
    ) -> (page: Result<FileListResponse, IndexError>)
        ensures
            page matches Ok(p) ==> p.offset == offset && p.limit == limit,
            page matches Err(e) ==> e.step == IndexStep::Count || e.step == IndexStep::List,
    {
        let (where_sql, count_params, query_params) = build_filter(
            session_id,
            mime_prefix,
            offset,
            limit,
        );
        let count_sql = count_statement(where_sql.as_str());
        let counted = query_rows(
            &self.conn,
            count_sql.as_str(),
            &engine_params(&text_params(&count_params)),
            1,
        );
        let total = match settle(IndexStep::Count, counted) {
            Ok(rows) => match count_outcome(&rows) {
                Ok(n) => n,
                Err(e) => {
                    return Err(e);
                },
            },
            Err(e) => {
                return Err(e);
            },
        };
        let list_sql = page_statement(where_sql.as_str());
        let found = query_rows(
            &self.conn,
            list_sql.as_str(),
            &engine_params(&text_params(&query_params)),
            RECORD_COLUMNS,
        );
        match settle(IndexStep::List, found) {
            Ok(rows) => match collect_records(&rows, IndexStep::List) {
                Ok(files) => Ok(FileListResponse { files, total, offset, limit }),
                Err(e) => Err(e),
            },
            Err(e) => Err(e),
        }
    }

    /// Full-text search in the engine's query syntax: the best matches
    /// first, at most `limit` of them, each with its score.
    pub fn search(&self, query: &str, limit: usize) -> (hits: Result<
        Vec<FileSearchResult>,
        IndexError,
    >)
        ensures
            hits matches Err(e) ==> e.step == IndexStep::Search,
    {
        let params = search_params(query, limit);
        let answer = query_rows(
            &self.conn,
            SEARCH_SQL,
            &engine_params(&params),
            RECORD_COLUMNS + 1,
        );
        match settle(IndexStep::Search, answer) {
            Ok(rows) => collect_hits(&rows),
            Err(e) => Err(e),
        }
    }
}

} // verus!
