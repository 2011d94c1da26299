//! The statements that the database understands, what they do to its tables, and
//! the calls into SQLite that run them.

use rusqlite::OptionalExtension;
use vstd::prelude::*;
use vstd::string::*;

verus! {

/// Schema applied on open (idempotent).
pub const SCHEMA: &'static str = "\
CREATE TABLE IF NOT EXISTS meta (
    key   TEXT PRIMARY KEY,
    value TEXT NOT NULL
);
CREATE TABLE IF NOT EXISTS maintenance_log (
    id           INTEGER PRIMARY KEY AUTOINCREMENT,
    item_id      TEXT NOT NULL,
    performed_at TEXT NOT NULL,
    odometer_km  REAL NOT NULL,
    engine_hours REAL,
    note         TEXT
);
CREATE TABLE IF NOT EXISTS error_history (
    id          INTEGER PRIMARY KEY AUTOINCREMENT,
    ts          TEXT NOT NULL,
    event       TEXT NOT NULL,
    edge        TEXT NOT NULL,
    severity    TEXT,
    vss         TEXT,
    message     TEXT NOT NULL,
    odometer_km REAL
);
CREATE INDEX IF NOT EXISTS idx_error_history_ts ON error_history (ts);
";

/// Writes one metadata entry, in place of the one with the same key.
pub const SET_META: &'static str = "INSERT INTO meta (key, value) VALUES (?1, ?2) \
     ON CONFLICT(key) DO UPDATE SET value = excluded.value";

/// Reads one metadata entry.
pub const GET_META: &'static str = "SELECT value FROM meta WHERE key = ?1";

/// Appends to the maintenance log.
pub const INSERT_SERVICE: &'static str =
    "INSERT INTO maintenance_log (item_id, performed_at, odometer_km, engine_hours, note) \
     VALUES (?1, ?2, ?3, ?4, ?5)";

/// Counts the maintenance log.
pub const COUNT_SERVICES: &'static str = "SELECT COUNT(*) FROM maintenance_log";

/// Appends to the error history.
pub const INSERT_ERROR: &'static str =
    "INSERT INTO error_history (ts, event, edge, severity, vss, message, odometer_km) \
     VALUES (?1, ?2, ?3, ?4, ?5, ?6, ?7)";

/// Reads the error history from its end.
pub const RECENT_ERRORS: &'static str =
    "SELECT ts, event, edge, severity, vss, message, odometer_km \
     FROM error_history ORDER BY id DESC LIMIT ?1";

/// A SQLite connection.
#[verifier::external_type_specification]
#[verifier::external_body]
pub struct ExConnection(rusqlite::Connection);

/// A SQLite value; here always a number that is carried through.
#[verifier::external_type_specification]
#[verifier::external_body]
pub struct ExValue(rusqlite::types::Value);

/// A value that is bound to a statement's parameter.
pub enum Param<'a> {
    Null,
    Text(&'a str),
    Real(&'a rusqlite::types::Value),
}

/// The mathematical counterpart of [`Param`].
pub enum Cell {
    Null,
    Text(Seq<char>),
    Real(rusqlite::types::Value),
}

impl<'a> View for Param<'a> {
    type V = Cell;

    open spec fn view(&self) -> Cell {
        match *self {
            Param::Null => Cell::Null,
            Param::Text(text) => Cell::Text(text@),
            Param::Real(value) => Cell::Real(*value),
        }
    }
}

/// The values that a list of parameters binds.
pub open spec fn cells(params: Seq<Param<'_>>) -> Seq<Cell> {
    params.map_values(|param: Param<'_>| param@)
}

/// A row of the maintenance log, as it was bound.
pub struct ServiceRow {
    pub item_id: Seq<char>,
    pub performed_at: Seq<char>,
    pub odometer_km: rusqlite::types::Value,
    pub engine_hours: Option<rusqlite::types::Value>,
    pub note: Option<Seq<char>>,
}

/// A row of the error history, as it was bound.
pub struct ErrorRow {
    pub ts: Seq<char>,
    pub event: Seq<char>,
    pub edge: Seq<char>,
    pub severity: Seq<char>,
    pub vss: Seq<char>,
    pub message: Seq<char>,
    pub odometer_km: rusqlite::types::Value,
}

/// What the tables hold; rows stand in the order in which they were inserted.
#[verifier::ext_equal]
pub struct Tables {
    pub meta: Map<Seq<char>, Seq<char>>,
    pub services: Seq<ServiceRow>,
    pub errors: Seq<ErrorRow>,
}

impl Tables {
    /// Tables without rows.
    pub open spec fn empty() -> Tables {
        Tables { meta: Map::empty(), services: Seq::empty(), errors: Seq::empty() }
    }
}

/// The metadata entry of a key, where there is one.
pub open spec fn meta_entry(meta: Map<Seq<char>, Seq<char>>, key: Seq<char>) -> Option<Seq<char>> {
    if meta.contains_key(key) {
        Some(meta[key])
    } else {
        None
    }
}

/// The statements that change the database or copy it, with what they are about.
pub enum Statement {
    CreateSchema,
    VacuumInto { target: Seq<char> },
    SetMeta { key: Seq<char>, value: Seq<char> },
    InsertService(ServiceRow),
    InsertError(ErrorRow),
}

/// An optional number as a bound value.
pub open spec fn optional_real(value: Option<rusqlite::types::Value>) -> Cell {
    match value {
        Some(value) => Cell::Real(value),
        None => Cell::Null,
    }
}

/// An optional text as a bound value.
pub open spec fn optional_text(text: Option<Seq<char>>) -> Cell {
    match text {
        Some(text) => Cell::Text(text),
        None => Cell::Null,
    }
}

impl Statement {
    /// The SQL text of the statement.
    pub open spec fn sql(self) -> Seq<char> {
        match self {
            Statement::CreateSchema => SCHEMA@,
            Statement::VacuumInto { target } => vacuum_sql(target),
            Statement::SetMeta { .. } => SET_META@,
            Statement::InsertService(_) => INSERT_SERVICE@,
            Statement::InsertError(_) => INSERT_ERROR@,
        }
    }

    /// The values that are bound to its parameters, in order.
    pub open spec fn params(self) -> Seq<Cell> {
        match self {
            Statement::CreateSchema => Seq::empty(),
            Statement::VacuumInto { .. } => Seq::empty(),
            Statement::SetMeta { key, value } => seq![Cell::Text(key), Cell::Text(value)],
            Statement::InsertService(row) => seq![
                Cell::Text(row.item_id),
                Cell::Text(row.performed_at),
                Cell::Real(row.odometer_km),
                optional_real(row.engine_hours),
                optional_text(row.note),
            ],
            Statement::InsertError(row) => seq![
                Cell::Text(row.ts),
                Cell::Text(row.event),
                Cell::Text(row.edge),
                Cell::Text(row.severity),
                Cell::Text(row.vss),
                Cell::Text(row.message),
                Cell::Real(row.odometer_km),
            ],
        }
    }

    /// Whether the statement is run as a batch.
    pub open spec fn is_batch(self) -> bool {
        self is CreateSchema || self is VacuumInto
    }

    /// Whether a request is one that runs this statement.
    pub open spec fn asked_by(self, request: Request) -> bool {
        match request {
            Request::Batch { sql, .. } => self.is_batch() && sql == self.sql(),
            Request::Execute { sql, params, .. } => {
                &&& !self.is_batch()
                &&& sql == self.sql()
                &&& params == self.params()
            },
            _ => false,
        }
    }

    /// What the tables hold once the statement has succeeded.
    pub open spec fn apply(self, before: Tables) -> Tables {
        match self {
            Statement::CreateSchema => before,
            Statement::VacuumInto { .. } => before,
            Statement::SetMeta { key, value } => Tables {
                meta: before.meta.insert(key, value),
                ..before
            },
            Statement::InsertService(row) => Tables {
                services: before.services.push(row),
                ..before
            },
            Statement::InsertError(row) => Tables { errors: before.errors.push(row), ..before },
        }
    }

    /// The words in front of the cause where the statement fails.
    pub open spec fn failure_prefix(self) -> Seq<char> {
        match self {
            Statement::CreateSchema => "db schema: "@,
            Statement::VacuumInto { .. } => "snapshot: "@,
            Statement::SetMeta { key, .. } => "meta set "@ + key + ": "@,
            Statement::InsertService(_) => "record service: "@,
            Statement::InsertError(_) => "record error: "@,
        }
    }
}

/// A call that was made into SQLite, with what it was handed and what came of it: a
/// result, or the words of a failure.
pub enum Request {
    /// A batch of SQL without parameters was run, and failed for the given reason or not
    /// at all.
    Batch { sql: Seq<char>, failed: Option<Seq<char>> },
    /// One statement was run with values for its parameters.
    Execute { sql: Seq<char>, params: Seq<Cell>, changed: Result<usize, Seq<char>> },
    /// One text was looked up.
    QueryText { sql: Seq<char>, key: Seq<char>, found: Result<Option<Seq<char>>, Seq<char>> },
    /// One number was read.
    QueryCount { sql: Seq<char>, count: Result<i64, Seq<char>> },
    /// Rows of the error history were read.
    QueryErrors { sql: Seq<char>, limit: u32, rows: Result<Seq<ErrorEntry>, Seq<char>> },
}

/// The words of the failure, where there was one.
pub open spec fn failure_in<T>(outcome: Result<T, Seq<char>>) -> Option<Seq<char>> {
    match outcome {
        Ok(_) => None,
        Err(words) => Some(words),
    }
}

impl Request {
    /// SQLite's words where it failed to do what it was asked for.
    pub open spec fn failure(self) -> Option<Seq<char>> {
        match self {
            Request::Batch { failed, .. } => failed,
            Request::Execute { changed, .. } => failure_in(changed),
            Request::QueryText { found, .. } => failure_in(found),
            Request::QueryCount { count, .. } => failure_in(count),
            Request::QueryErrors { rows, .. } => failure_in(rows),
        }
    }

    /// Whether SQLite did what it was asked for.
    pub open spec fn succeeded(self) -> bool {
        self.failure() is None
    }
}

/// The outcome of a call as it stands in a [`Request`].
pub open spec fn told<T>(outcome: Result<T, String>) -> Result<T, Seq<char>> {
    match outcome {
        Ok(value) => Ok(value),
        Err(words) => Err(words@),
    }
}

/// The outcome of looking up a text as it stands in a [`Request`].
pub open spec fn told_text(outcome: Result<Option<String>, String>) -> Result<
    Option<Seq<char>>,
    Seq<char>,
> {
    match outcome {
        Ok(Some(text)) => Ok(Some(text@)),
        Ok(None) => Ok(None),
        Err(words) => Err(words@),
    }
}

/// The outcome of reading rows as it stands in a [`Request`].
pub open spec fn told_rows(outcome: Result<Vec<ErrorEntry>, String>) -> Result<
    Seq<ErrorEntry>,
    Seq<char>,
> {
    match outcome {
        Ok(entries) => Ok(entries@),
        Err(words) => Err(words@),
    }
}

/// What statements that all succeed make of the tables, one after the other.
pub open spec fn apply_all(before: Tables, statements: Seq<Statement>) -> Tables
    decreases statements.len(),
{
    if statements.len() == 0 {
        before
    } else {
        statements.last().apply(apply_all(before, statements.drop_last()))
    }
}

/// The newest error rows, newest first, at most `limit` of them.
pub open spec fn newest(errors: Seq<ErrorRow>, limit: nat) -> Seq<ErrorRow> {
    Seq::new(
        if limit < errors.len() {
            limit
        } else {
            errors.len()
        },
        |i: int| errors[errors.len() - 1 - i],
    )
}

/// One recorded error-history row, as it is read back.
#[derive(Debug, Clone, PartialEq)]
pub struct ErrorEntry {
    pub ts: String,
    pub event: String,
    pub edge: String,
    pub severity: Option<String>,
    pub vss: Option<String>,
    pub message: String,
    /// The odometer reading, where the row has one.
    pub odometer_km: Option<rusqlite::types::Value>,
}

/// The number that a `REAL` column hands back for a value that was bound to it; none
/// where it holds `NULL`, as it does for a number that is not a number. Since a value
/// is opaque here, it is not said which number that is.
pub uninterp spec fn real_read_back(bound: rusqlite::types::Value) -> Option<rusqlite::types::Value>;

/// The path that a connection was opened with.
pub uninterp spec fn opened_path(conn: rusqlite::Connection) -> Seq<char>;

/// The calls that were made over a connection since it was opened, in order. Only the
/// calls themselves add to it.
pub uninterp spec fn asked_over(conn: rusqlite::Connection) -> Seq<Request>;

/// Whether a connection was opened as `:memory:`, with nothing but the statements and
/// reads of this module run over it since. Its database is then reached by nobody else
/// and has no table, index or trigger beyond those of [`SCHEMA`].
pub uninterp spec fn is_private(conn: rusqlite::Connection) -> bool;

/// The rows of `meta` in the private database of a connection.
pub uninterp spec fn meta_table(conn: rusqlite::Connection) -> Map<Seq<char>, Seq<char>>;

/// The rows of `maintenance_log` in the private database of a connection.
pub uninterp spec fn service_log(conn: rusqlite::Connection) -> Seq<ServiceRow>;

/// The rows of `error_history` in the private database of a connection.
pub uninterp spec fn error_log(conn: rusqlite::Connection) -> Seq<ErrorRow>;

/// The tables in the private database of a connection.
pub open spec fn tables_of(conn: rusqlite::Connection) -> Tables {
    Tables { meta: meta_table(conn), services: service_log(conn), errors: error_log(conn) }
}

/// Whether `text` is the given optional text.
pub open spec fn same_optional(text: Option<String>, expected: Option<Seq<char>>) -> bool {
    match text {
        Some(text) => expected == Some(text@),
        None => expected is None,
    }
}

impl ErrorEntry {
    /// Whether the entry is what is read back of a row, with the given reading.
    pub open spec fn reads(
        &self,
        row: ErrorRow,
        odometer_km: Option<rusqlite::types::Value>,
    ) -> bool {
        &&& self.ts@ == row.ts
        &&& self.event@ == row.event
        &&& self.edge@ == row.edge
        &&& same_optional(self.severity, Some(row.severity))
        &&& same_optional(self.vss, Some(row.vss))
        &&& self.message@ == row.message
        &&& self.odometer_km == odometer_km
    }
}

/// Whether entries are what is read back of rows, one by one.
pub open spec fn entries_read(entries: Seq<ErrorEntry>, rows: Seq<ErrorRow>) -> bool {
    &&& entries.len() == rows.len()
    &&& forall|i: int| 0 <= i < rows.len() ==> (#[trigger] entries[i]).reads(
        rows[i],
        real_read_back(rows[i].odometer_km),
    )
}

/// A connection to the same database as before.
pub open spec fn same_database(before: rusqlite::Connection, after: rusqlite::Connection) -> bool {
    opened_path(after) == opened_path(before) && is_private(after) == is_private(before)
}

/// A connection after a call that leaves a private database as it was.
pub open spec fn only_read(before: rusqlite::Connection, after: rusqlite::Connection) -> bool {
    &&& same_database(before, after)
    &&& is_private(before) ==> tables_of(after) == tables_of(before)
}

/// What a statement that was run with the outcome `ok` made of a private database.
pub open spec fn took_effect(
    before: rusqlite::Connection,
    after: rusqlite::Connection,
    statement: Statement,
    ok: bool,
) -> bool {
    is_private(before) ==> tables_of(after) == (if ok {
        statement.apply(tables_of(before))
    } else {
        tables_of(before)
    })
}

/// `Connection::open` of rusqlite: a connection to the given path, over which nothing
/// has been asked yet. The path `:memory:` opens a fresh database that belongs to this
/// connection alone. Whether opening succeeds, and what the words of a failure are, is up
/// to SQLite.
#[verifier::external_body]
pub(crate) fn open_connection(path: &str) -> (res: Result<rusqlite::Connection, String>)
    ensures
        res matches Ok(conn) ==> opened_path(conn) == path@,
        res matches Ok(conn) ==> asked_over(conn) == Seq::<Request>::empty(),
        res matches Ok(conn) ==> path@ == ":memory:"@ ==> is_private(conn) && tables_of(conn)
            == Tables::empty(),
{
    rusqlite::Connection::open(path).map_err(|e| e.to_string())
}

/// `Connection::execute_batch` of rusqlite, on the text of one of the statements that are
/// run as a batch: on a private database it has the statement's effect where it succeeds
/// and none where it fails. Whether it succeeds is up to SQLite.
#[verifier::external_body]
pub(crate) fn execute_batch(conn: &mut rusqlite::Connection, sql: &str) -> (res: Result<(), String>)
    requires
        exists|statement: Statement| #[trigger] statement.sql() == sql@ && statement.is_batch(),
    ensures
        asked_over(*final(conn)) == asked_over(*old(conn)).push(
            (Request::Batch { sql: sql@, failed: failure_in(told(res)) }),
        ),
        same_database(*old(conn), *final(conn)),
        forall|statement: Statement|
            #[trigger] statement.sql() == sql@ && statement.is_batch() ==> took_effect(
                *old(conn),
                *final(conn),
                statement,
                res is Ok,
            ),
{
    conn.execute_batch(sql).map_err(|e| e.to_string())
}

/// `Connection::execute` of rusqlite, on the text of one of the statements that take
/// parameters, with the values for them: on a private database it has the statement's
/// effect where it succeeds and none where it fails. Whether it succeeds is up to SQLite.
#[verifier::external_body]
pub(crate) fn execute(
    conn: &mut rusqlite::Connection,
    sql: &str,
    params: &Vec<Param<'_>>,
) -> (res: Result<usize, String>)
    requires
        exists|statement: Statement|
            #[trigger] statement.sql() == sql@ && !statement.is_batch() && statement.params()
                == cells(params@),
    ensures
        asked_over(*final(conn)) == asked_over(*old(conn)).push(
            (Request::Execute { sql: sql@, params: cells(params@), changed: told(res) }),
        ),
        same_database(*old(conn), *final(conn)),
        forall|statement: Statement|
            #[trigger] statement.sql() == sql@ && !statement.is_batch() && statement.params()
                == cells(params@) ==> took_effect(
                *old(conn),
                *final(conn),
                statement,
                res is Ok,
            ),
{
    let bound = params.iter().map(|param| match param {
        Param::Null => rusqlite::types::Value::Null,
        Param::Text(text) => rusqlite::types::Value::Text(text.to_string()),
        Param::Real(value) => (*value).clone(),
    });
    conn.execute(sql, rusqlite::params_from_iter(bound)).map_err(|e| e.to_string())
}

/// `Connection::query_row` of rusqlite with one text to look up: the first column of
/// the first row, or `None` without a row. [`GET_META`] finds the entry of that key and
/// changes nothing.
#[verifier::external_body]
pub(crate) fn query_text(conn: &mut rusqlite::Connection, sql: &str, key: &str) -> (res: Result<
    Option<String>,
    String,
>)
    ensures
        asked_over(*final(conn)) == asked_over(*old(conn)).push(
            (Request::QueryText { sql: sql@, key: key@, found: told_text(res) }),
        ),
        sql@ == GET_META@ ==> only_read(*old(conn), *final(conn)),
        res matches Ok(value) ==> is_private(*old(conn)) && sql@ == GET_META@ ==> same_optional(
            value,
            meta_entry(meta_table(*old(conn)), key@),
        ),
{
    conn.query_row(sql, [key], |row| row.get(0)).optional().map_err(|e| e.to_string())
}

/// `Connection::query_row` of rusqlite without parameters: the integer in the first
/// column of the first row. [`COUNT_SERVICES`] gives the length of the maintenance log,
/// which is never negative, and changes nothing.
#[verifier::external_body]
pub(crate) fn query_count(conn: &mut rusqlite::Connection, sql: &str) -> (res: Result<i64, String>)
    ensures
        asked_over(*final(conn)) == asked_over(*old(conn)).push(
            (Request::QueryCount { sql: sql@, count: told(res) }),
        ),
        sql@ == COUNT_SERVICES@ ==> only_read(*old(conn), *final(conn)),
        res matches Ok(n) ==> sql@ == COUNT_SERVICES@ ==> n >= 0,
        res matches Ok(n) ==> is_private(*old(conn)) && sql@ == COUNT_SERVICES@ ==> n
            == service_log(*old(conn)).len(),
{
    conn.query_row(sql, [], |row| row.get(0)).map_err(|e| e.to_string())
}

/// `Connection::prepare` and `Statement::query_map` of rusqlite with one number as the
/// parameter: every row, its columns taken in order. [`RECENT_ERRORS`] gives the newest
/// rows of the error history, at most `limit` of them, and changes nothing.
#[verifier::external_body]
pub(crate) fn query_errors(conn: &mut rusqlite::Connection, sql: &str, limit: u32) -> (res: Result<
    Vec<ErrorEntry>,
    String,
>)
    ensures
        asked_over(*final(conn)) == asked_over(*old(conn)).push(
            (Request::QueryErrors { sql: sql@, limit, rows: told_rows(res) }),
        ),
        sql@ == RECENT_ERRORS@ ==> only_read(*old(conn), *final(conn)),
        res matches Ok(entries) ==> sql@ == RECENT_ERRORS@ ==> entries@.len() <= limit,
        res matches Ok(entries) ==> is_private(*old(conn)) && sql@ == RECENT_ERRORS@
            ==> entries@.len() == newest(error_log(*old(conn)), limit as nat).len(),
        res matches Ok(entries) ==> is_private(*old(conn)) && sql@ == RECENT_ERRORS@ ==> forall|
            i: int,
        |
            0 <= i < entries@.len() ==> (#[trigger] entries@[i]).reads(
                newest(error_log(*old(conn)), limit as nat)[i],
                real_read_back(newest(error_log(*old(conn)), limit as nat)[i].odometer_km),
            ),
{
    let read = |row: &rusqlite::Row<'_>| Ok(ErrorEntry {
        ts: row.get(0)?,
        event: row.get(1)?,
        edge: row.get(2)?,
        severity: row.get(3)?,
        vss: row.get(4)?,
        message: row.get(5)?,
        odometer_km: row.get::<_, Option<_>>(6)?.map(rusqlite::types::Value::Real),
    });
    let mut statement = conn.prepare(sql).map_err(|e| e.to_string())?;
    let rows = statement.query_map([limit], read).map_err(|e| e.to_string())?;
    rows.collect::<Result<Vec<_>, _>>().map_err(|e| e.to_string())
}

/// The number `n` as a value of SQLite's `REAL` type.
pub uninterp spec fn whole_real(n: u32) -> rusqlite::types::Value;

/// `Value::Real` of rusqlite on a whole number, which a `REAL` column hands back as it
/// was bound.
#[verifier::external_body]
pub(crate) fn whole_number(n: u32) -> (res: rusqlite::types::Value)
    ensures
        res == whole_real(n),
        real_read_back(res) == Some(res),
{
    rusqlite::types::Value::Real(n.into())
}

/// A text with every single quote doubled.
pub open spec fn quoted(text: Seq<char>) -> Seq<char>
    decreases text.len(),
{
    if text.len() == 0 {
        Seq::empty()
    } else if text[0] == '\'' {
        seq!['\'', '\''] + quoted(text.skip(1))
    } else {
        seq![text[0]] + quoted(text.skip(1))
    }
}

/// The text that a SQL string literal stands for, from what is between its quotes:
/// two single quotes stand for one, and a lone one does not occur.
pub open spec fn literal_value(body: Seq<char>) -> Option<Seq<char>>
    decreases body.len(),
{
    if body.len() == 0 {
        Some(Seq::empty())
    } else if body[0] != '\'' {
        match literal_value(body.skip(1)) {
            Some(rest) => Some(seq![body[0]] + rest),
            None => None,
        }
    } else if body.len() >= 2 && body[1] == '\'' {
        match literal_value(body.skip(2)) {
            Some(rest) => Some(seq!['\''] + rest),
            None => None,
        }
    } else {
        None
    }
}

/// Law: a quoted text, put between single quotes, is a SQL string literal for that
/// text, whatever quotes it holds.
pub proof fn law_quoted_literal(text: Seq<char>)
    ensures
        literal_value(quoted(text)) == Some(text),
    decreases text.len(),
{
    if text.len() > 0 {
        law_quoted_literal(text.skip(1));
        let rest = quoted(text.skip(1));
        if text[0] == '\'' {
            assert(quoted(text).skip(2) == rest);
        } else {
            assert(quoted(text).skip(1) == rest);
        }
        assert(seq![text[0]] + text.skip(1) == text);
    }
}

/// The statement that copies the database into the file `target`.
pub open spec fn vacuum_sql(target: Seq<char>) -> Seq<char> {
    "VACUUM INTO '"@ + quoted(target) + "'"@
}

/// The statement that copies the database into the file `target`.
pub fn vacuum_statement(target: &str) -> (res: String)
    ensures
        res@ == vacuum_sql(target@),
{
    let mut sql = "VACUUM INTO '".to_owned();
    let ghost start = sql@;
    assert(target@.skip(0) == target@);
    for c in it: target.chars()
        invariant
            it.seq() == target@,
            sql@ + quoted(target@.skip(it.index() as int)) == start + quoted(target@),
    {
        let ghost i: int = it.index() as int;
        let ghost before = sql@;
        let ghost rest = target@.skip(i);
        assert(rest.skip(1) == target@.skip(i + 1));
        if c == '\'' {
            sql.push('\'');
        }
        sql.push(c);
        assert(sql@ + quoted(target@.skip(i + 1)) == before + quoted(rest));
    }
    sql.append("'");
    sql
}

/// The encoding of one more character.
proof fn lemma_quoted_push(text: Seq<char>, c: char)
    ensures
        quoted(text.push(c)) == quoted(text) + (if c == '\'' {
            seq!['\'', '\'']
        } else {
            seq![c]
        }),
    decreases text.len(),
{
    reveal_with_fuel(quoted, 2);
    let longer = text.push(c);
    if text.len() == 0 {
        assert(longer.skip(1) == Seq::<char>::empty());
    } else {
        assert(longer.skip(1) == text.skip(1).push(c));
        lemma_quoted_push(text.skip(1), c);
    }
    assert(quoted(longer) == quoted(text) + (if c == '\'' {
        seq!['\'', '\'']
    } else {
        seq![c]
    }));
}

/// Law: the statement that copies a database names its target between single quotes: as it
/// is, but that each single quote in it is doubled.
pub proof fn law_vacuum_statement(
    target: &str,
    sql: String,
    longer: &str,
    longer_sql: String,
    c: char,
)
    requires
        call_ensures(vacuum_statement, (target,), sql),
        call_ensures(vacuum_statement, (longer,), longer_sql),
        longer@ == target@.push(c),
    ensures
        target@.len() == 0 ==> sql@ == "VACUUM INTO ''"@,
        sql@.last() == '\'',
        c == '\'' ==> longer_sql@ == sql@.drop_last() + seq!['\'', '\'', '\''],
        c != '\'' ==> longer_sql@ == sql@.drop_last() + seq![c, '\''],
{
    lemma_quoted_push(target@, c);
    reveal_strlit("'");
    assert("'"@ == seq!['\'']);
    assert(sql@.last() == '\'');
    assert(sql@.drop_last() == "VACUUM INTO '"@ + quoted(target@));
    if c == '\'' {
        assert(longer_sql@ == sql@.drop_last() + seq!['\'', '\'', '\'']);
    } else {
        assert(longer_sql@ == sql@.drop_last() + seq![c, '\'']);
    }
    if target@.len() == 0 {
        reveal_strlit("VACUUM INTO ''");
        reveal_strlit("VACUUM INTO '");
        assert(sql@ =~= "VACUUM INTO ''"@);
    }
}

/// Law: the SQL that the database is handed.
pub proof fn law_sql_texts()
    ensures
        SCHEMA@ == "\
CREATE TABLE IF NOT EXISTS meta (
    key   TEXT PRIMARY KEY,
    value TEXT NOT NULL
);
CREATE TABLE IF NOT EXISTS maintenance_log (
    id           INTEGER PRIMARY KEY AUTOINCREMENT,
    item_id      TEXT NOT NULL,
    performed_at TEXT NOT NULL,
    odometer_km  REAL NOT NULL,
    engine_hours REAL,
    note         TEXT
);
CREATE TABLE IF NOT EXISTS error_history (
    id          INTEGER PRIMARY KEY AUTOINCREMENT,
    ts          TEXT NOT NULL,
    event       TEXT NOT NULL,
    edge        TEXT NOT NULL,
    severity    TEXT,
    vss         TEXT,
    message     TEXT NOT NULL,
    odometer_km REAL
);
CREATE INDEX IF NOT EXISTS idx_error_history_ts ON error_history (ts);
"@,
        SET_META@ == "INSERT INTO meta (key, value) VALUES (?1, ?2) \
     ON CONFLICT(key) DO UPDATE SET value = excluded.value"@,
        GET_META@ == "SELECT value FROM meta WHERE key = ?1"@,
        INSERT_SERVICE@ == "INSERT INTO maintenance_log (item_id, performed_at, odometer_km, engine_hours, note) \
     VALUES (?1, ?2, ?3, ?4, ?5)"@,
        COUNT_SERVICES@ == "SELECT COUNT(*) FROM maintenance_log"@,
        INSERT_ERROR@ == "INSERT INTO error_history (ts, event, edge, severity, vss, message, odometer_km) \
     VALUES (?1, ?2, ?3, ?4, ?5, ?6, ?7)"@,
        RECENT_ERRORS@ == "SELECT ts, event, edge, severity, vss, message, odometer_km \
     FROM error_history ORDER BY id DESC LIMIT ?1"@,
{
}

/// Law: what each statement makes of the tables: setting an entry changes that entry alone,
/// and recording a row adds it behind the others of its own table alone.
pub proof fn law_statement_effects(
    before: Tables,
    key: Seq<char>,
    value: Seq<char>,
    service: ServiceRow,
    error: ErrorRow,
    target: Seq<char>,
)
    ensures
        Statement::CreateSchema.apply(before) == before,
        (Statement::VacuumInto { target }).apply(before) == before,
        ({
            let after = (Statement::SetMeta { key, value }).apply(before);
            &&& after.meta == before.meta.insert(key, value)
            &&& after.services == before.services
            &&& after.errors == before.errors
        }),
        ({
            let after = Statement::InsertService(service).apply(before);
            &&& after.meta == before.meta
            &&& after.services == before.services.push(service)
            &&& after.errors == before.errors
        }),
        ({
            let after = Statement::InsertError(error).apply(before);
            &&& after.meta == before.meta
            &&& after.services == before.services
            &&& after.errors == before.errors.push(error)
        }),
{
}

} // verus!
