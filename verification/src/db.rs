//! The bike's durable store: a SQLite database that holds the maintenance log, the
//! error history and provisioned metadata (schedule version, engine hours).
//!
//! This is the bike's own record of what has happened to it. All access is from a
//! single-threaded loop, so the connection needs no locking.

use vstd::prelude::*;
use vstd::string::*;

use crate::anomaly::{AnomalyEvent, Edge};
use crate::clock::timestamp;
use crate::maintenance::MaintenanceLogEntry;
use crate::port::push_decimal;
use crate::sql::{
    execute, execute_batch, open_connection, query_count, query_errors, query_text, vacuum_statement,
    whole_number, Cell, ErrorEntry, ErrorRow, Param, Request, ServiceRow, Statement, Tables, COUNT_SERVICES,
    GET_META, INSERT_ERROR, INSERT_SERVICE, RECENT_ERRORS, SCHEMA, SET_META,
};
use crate::text::joined;

verus! {

/// Default on-bike database.
pub const DEFAULT_DB_PATH: &'static str = "/var/lib/sigma-racer-wingman/wingman.db";

/// The metadata key of the provisioned schedule version.
pub const SCHEDULE_VERSION: &'static str = "schedule_version";

/// The metadata key of the engine hours.
pub const ENGINE_HOURS: &'static str = "engine_hours";

/// The metadata key of the odometer reading.
pub const ODOMETER_KM: &'static str = "odometer_km";

/// The path of a database in memory, which no one else can reach.
pub const IN_MEMORY: &'static str = ":memory:";

/// The bike's maintenance and diagnostics database.
pub struct MaintenanceDb {
    conn: rusqlite::Connection,
}

/// Whether an outcome reports a failure of SQLite: it is a success exactly where there
/// was none, and otherwise SQLite's words behind `prefix`.
pub open spec fn reported<T>(
    res: Result<T, String>,
    prefix: Seq<char>,
    failure: Option<Seq<char>>,
) -> bool {
    match failure {
        None => res is Ok,
        Some(cause) => res matches Err(words) && words@ == prefix + cause,
    }
}

/// The words in front of the cause where a database cannot be opened.
pub open spec fn open_prefix(path: Seq<char>) -> Seq<char> {
    "open db "@ + path + ": "@
}

/// Whether SQLite was asked for the schema over a connection and refused, for the cause
/// that stands in `words`.
pub open spec fn schema_failed(conn: rusqlite::Connection, words: Seq<char>) -> bool {
    exists|after: rusqlite::Connection, cause: Seq<char>|
        {
            &&& crate::sql::opened_path(after) == crate::sql::opened_path(conn)
            &&& #[trigger] crate::sql::asked_over(after) == crate::sql::asked_over(conn).push(
                Request::Batch { sql: SCHEMA@, failed: Some(cause) },
            )
            &&& words == #[trigger] (Statement::CreateSchema.failure_prefix() + cause)
        }
}

impl MaintenanceDb {
    /// The connection to SQLite.
    pub closed spec fn connection(&self) -> rusqlite::Connection {
        self.conn
    }

    /// The path that the database was opened with.
    pub open spec fn path(&self) -> Seq<char> {
        crate::sql::opened_path(self.connection())
    }

    /// Every call that was made into SQLite over this connection, in order, with what it
    /// was handed and what it came to.
    pub open spec fn history(&self) -> Seq<Request> {
        crate::sql::asked_over(self.connection())
    }

    /// Whether the database was opened as [`IN_MEMORY`] and nothing but what is stated in
    /// [`crate::sql`] was run over its connection, so that nothing else changes its tables.
    /// Of a database in a file, or in memory that is shared, which others may write and
    /// whose schema may hold more than [`SCHEMA`], no table contents are known.
    pub open spec fn is_private(&self) -> bool {
        crate::sql::is_private(self.connection())
    }

    /// What the tables of a private database hold.
    pub open spec fn tables(&self) -> Tables {
        crate::sql::tables_of(self.connection())
    }

    /// `self` is the database of `before` after one more call into SQLite.
    pub open spec fn follows(&self, before: &MaintenanceDb, request: Request) -> bool {
        &&& self.path() == before.path()
        &&& self.is_private() == before.is_private()
        &&& self.history() == before.history().push(request)
    }

    /// `self` after `before` ran one statement with the outcome `res`: SQLite was asked
    /// for just that statement; a private database holds what the statement makes of its
    /// tables, or what it held where the statement failed, which the outcome reports in
    /// SQLite's words.
    pub open spec fn ran(
        &self,
        before: &MaintenanceDb,
        statement: Statement,
        res: Result<(), String>,
    ) -> bool {
        &&& self.follows(before, self.history().last())
        &&& statement.asked_by(self.history().last())
        &&& reported(res, statement.failure_prefix(), self.history().last().failure())
        &&& before.is_private() ==> self.tables() == (if res is Ok {
            statement.apply(before.tables())
        } else {
            before.tables()
        })
    }

    fn run(
        &mut self,
        sql: &str,
        params: Vec<Param<'_>>,
        prefix: &str,
        statement: Ghost<Statement>,
    ) -> (res: Result<(), String>)
        requires
            statement@.sql() == sql@,
            !statement@.is_batch(),
            statement@.params() == crate::sql::cells(params@),
            statement@.failure_prefix() == prefix@,
        ensures
            final(self).ran(old(self), statement@, res),
    {
        match execute(&mut self.conn, sql, &params) {
            Ok(_) => Ok(()),
            Err(cause) => Err(joined(prefix, cause.as_str())),
        }
    }

    fn run_batch(
        &mut self,
        sql: &str,
        prefix: &str,
        statement: Ghost<Statement>,
    ) -> (res: Result<(), String>)
        requires
            statement@.sql() == sql@,
            statement@.is_batch(),
            statement@.failure_prefix() == prefix@,
        ensures
            final(self).ran(old(self), statement@, res),
    {
        match execute_batch(&mut self.conn, sql) {
            Ok(()) => Ok(()),
            Err(cause) => Err(joined(prefix, cause.as_str())),
        }
    }

    /// Opens the database, creating it if absent, and applies the schema. A database in
    /// memory starts out private and empty.
    pub fn open(path: &str) -> (res: Result<MaintenanceDb, String>)
        ensures
            match res {
                Ok(db) => {
                    &&& db.path() == path@
                    &&& db.history() == seq![
                        Request::Batch { sql: SCHEMA@, failed: None },
                    ]
                    &&& path@ == IN_MEMORY@ ==> db.is_private() && db.tables() == Tables::empty()
                },
                Err(words) => {
                    ||| exists|cause: Seq<char>| words@ == #[trigger] (open_prefix(path@) + cause)
                    ||| exists|conn: rusqlite::Connection|
                        {
                            &&& crate::sql::opened_path(conn) == path@
                            &&& crate::sql::asked_over(conn) == Seq::<Request>::empty()
                            &&& #[trigger] schema_failed(conn, words@)
                        }
                },
            },
    {
        MaintenanceDb::from_connection(path, open_connection(path))
    }

    /// The database of a connection that was to be opened to `path`, with the schema
    /// applied.
    pub fn from_connection(
        path: &str,
        opened: Result<rusqlite::Connection, String>,
    ) -> (res: Result<MaintenanceDb, String>)
        ensures
            match (opened, res) {
                (Ok(conn), Ok(db)) => {
                    &&& db.path() == crate::sql::opened_path(conn)
                    &&& db.history() == crate::sql::asked_over(conn).push(
                        Request::Batch { sql: SCHEMA@, failed: None },
                    )
                    &&& db.is_private() == crate::sql::is_private(conn)
                    &&& db.is_private() ==> db.tables() == crate::sql::tables_of(conn)
                },
                (Ok(conn), Err(words)) => schema_failed(conn, words@),
                (Err(cause), res) => res matches Err(words) && words@ == open_prefix(path@)
                    + cause@,
            },
    {
        match opened {
            Ok(conn) => {
                let mut db = MaintenanceDb { conn };
                match db.apply_schema() {
                    Ok(()) => Ok(db),
                    Err(words) => Err(words),
                }
            },
            Err(cause) => {
                let context = joined(joined("open db ", path).as_str(), ": ");
                Err(joined(context.as_str(), cause.as_str()))
            },
        }
    }

    /// Creates the tables that are missing.
    pub fn apply_schema(&mut self) -> (res: Result<(), String>)
        ensures
            final(self).ran(old(self), Statement::CreateSchema, res),
    {
        self.run_batch(SCHEMA, "db schema: ", Ghost(Statement::CreateSchema))
    }

    /// Copies the whole database into the file `target`, as a standalone database that
    /// is safe to read even while this one is in use.
    pub fn snapshot_into(&mut self, target: &str) -> (res: Result<(), String>)
        ensures
            final(self).ran(old(self), Statement::VacuumInto { target: target@ }, res),
    {
        let sql = vacuum_statement(target);
        self.run_batch(
            sql.as_str(),
            "snapshot: ",
            Ghost(Statement::VacuumInto { target: target@ }),
        )
    }

    /// The maintenance-log row of an entry.
    pub open spec fn service_row(entry: &MaintenanceLogEntry<rusqlite::types::Value>) -> ServiceRow {
        ServiceRow {
            item_id: entry.item_id@,
            performed_at: entry.performed_at@,
            odometer_km: entry.odometer_km,
            engine_hours: entry.engine_hours,
            note: match entry.note {
                Some(note) => Some(note@),
                None => None,
            },
        }
    }

    /// Records a completed service in the maintenance log.
    pub fn record_service(
        &mut self,
        entry: &MaintenanceLogEntry<rusqlite::types::Value>,
    ) -> (res: Result<(), String>)
        ensures
            final(self).ran(old(self), Statement::InsertService(Self::service_row(entry)), res),
    {
        let ghost statement = Statement::InsertService(Self::service_row(entry));
        let engine_hours = match &entry.engine_hours {
            Some(hours) => Param::Real(hours),
            None => Param::Null,
        };
        let note = match &entry.note {
            Some(note) => Param::Text(note.as_str()),
            None => Param::Null,
        };
        let params: Vec<Param<'_>> = vec![
            Param::Text(entry.item_id.as_str()),
            Param::Text(entry.performed_at.as_str()),
            Param::Real(&entry.odometer_km),
            engine_hours,
            note,
        ];
        assert(crate::sql::cells(params@) == statement.params());
        self.run(INSERT_SERVICE, params, "record service: ", Ghost(statement))
    }

    /// The error-history row of an anomaly transition.
    pub open spec fn error_row(
        ts: Seq<char>,
        ev: &AnomalyEvent,
        odometer_km: rusqlite::types::Value,
    ) -> ErrorRow {
        ErrorRow {
            ts,
            event: ev.id@,
            edge: ev.edge.word(),
            severity: ev.severity@,
            vss: ev.vss@,
            message: ev.message@,
            odometer_km,
        }
    }

    /// Records an anomaly transition in the error history, under the given timestamp.
    pub fn record_error_at(
        &mut self,
        ts: &str,
        ev: &AnomalyEvent,
        odometer_km: &rusqlite::types::Value,
    ) -> (res: Result<(), String>)
        ensures
            final(self).ran(
                old(self),
                Statement::InsertError(Self::error_row(ts@, ev, *odometer_km)),
                res,
            ),
    {
        let ghost statement = Statement::InsertError(Self::error_row(ts@, ev, *odometer_km));
        let params: Vec<Param<'_>> = vec![
            Param::Text(ts),
            Param::Text(ev.id.as_str()),
            Param::Text(ev.edge.label()),
            Param::Text(ev.severity.as_str()),
            Param::Text(ev.vss.as_str()),
            Param::Text(ev.message.as_str()),
            Param::Real(odometer_km),
        ];
        assert(crate::sql::cells(params@) == statement.params());
        self.run(INSERT_ERROR, params, "record error: ", Ghost(statement))
    }

    /// Records an anomaly transition in the error history, under its own timestamp, or
    /// the current one where that is out of range.
    pub fn record_error(
        &mut self,
        ev: &AnomalyEvent,
        odometer_km: &rusqlite::types::Value,
    ) -> (res: Result<(), String>)
        ensures
            exists|ts: Seq<char>|
                {
                    &&& #[trigger] crate::clock::stamps(ts, ev.ts_ms)
                    &&& final(self).ran(
                        old(self),
                        Statement::InsertError(Self::error_row(ts, ev, *odometer_km)),
                        res,
                    )
                },
    {
        let ts = timestamp(ev.ts_ms);
        assert(crate::clock::stamps(ts@, ev.ts_ms));
        self.record_error_at(ts.as_str(), ev, odometer_km)
    }

    /// `self` after `before` asked for something that changes nothing.
    pub open spec fn asked(&self, before: &MaintenanceDb, request: Request) -> bool {
        &&& self.follows(before, request)
        &&& before.is_private() ==> self.tables() == before.tables()
    }

    /// The most recent error-history rows, newest first: at most `limit` of them. Of a
    /// database that is not private, they are whatever SQLite finds.
    pub fn recent_errors(&mut self, limit: u32) -> (res: Result<Vec<ErrorEntry>, String>)
        ensures
            final(self).asked(
                old(self),
                Request::QueryErrors {
                    sql: RECENT_ERRORS@,
                    limit,
                    rows: crate::sql::told_rows(res),
                },
            ),
            res matches Ok(entries) ==> entries@.len() <= limit,
            res matches Ok(entries) ==> old(self).is_private() ==> crate::sql::entries_read(
                entries@,
                crate::sql::newest(old(self).tables().errors, limit as nat),
            ),
    {
        query_errors(&mut self.conn, RECENT_ERRORS, limit)
    }

    /// Whether `reply` fits a read of the metadata entry `key`: where the read succeeded,
    /// it is what a private database holds.
    pub open spec fn meta_reply(
        &self,
        key: Seq<char>,
        reply: Result<Option<Seq<char>>, Seq<char>>,
    ) -> bool {
        self.is_private() && reply is Ok ==> reply->Ok_0 == crate::sql::meta_entry(
            self.tables().meta,
            key,
        )
    }

    /// `self` after `before` read the metadata entry `key`, with the given reply.
    pub open spec fn read_meta(
        &self,
        before: &MaintenanceDb,
        key: Seq<char>,
        reply: Result<Option<Seq<char>>, Seq<char>>,
    ) -> bool {
        &&& before.meta_reply(key, reply)
        &&& self.asked(before, Request::QueryText { sql: GET_META@, key, found: reply })
    }

    fn meta_get(&mut self, key: &str) -> (res: Result<Option<String>, String>)
        ensures
            exists|reply: Result<Option<Seq<char>>, Seq<char>>|
                {
                    &&& #[trigger] final(self).read_meta(old(self), key@, reply)
                    &&& meta_answer(key@, reply) == crate::sql::told_text(res)
                },
    {
        let outcome = query_text(&mut self.conn, GET_META, key);
        let ghost reply = crate::sql::told_text(outcome);
        assert(self.read_meta(old(self), key@, reply));
        match outcome {
            Ok(value) => Ok(value),
            Err(cause) => {
                let context = joined(joined("meta ", key).as_str(), ": ");
                Err(joined(context.as_str(), cause.as_str()))
            },
        }
    }

    fn meta_set(&mut self, key: &str, value: &str) -> (res: Result<(), String>)
        ensures
            final(self).ran(old(self), Statement::SetMeta { key: key@, value: value@ }, res),
    {
        let ghost statement = Statement::SetMeta { key: key@, value: value@ };
        let prefix = joined(joined("meta set ", key).as_str(), ": ");
        let params: Vec<Param<'_>> = vec![Param::Text(key), Param::Text(value)];
        assert(crate::sql::cells(params@) == statement.params());
        self.run(SET_META, params, prefix.as_str(), Ghost(statement))
    }

    /// Persists the current odometer reading, given as a decimal, so that a pulled
    /// database is self-contained.
    pub fn set_odometer(&mut self, odometer_km: &str) -> (res: Result<(), String>)
        ensures
            final(self).ran(
                old(self),
                Statement::SetMeta { key: ODOMETER_KM@, value: odometer_km@ },
                res,
            ),
    {
        self.meta_set(ODOMETER_KM, odometer_km)
    }

    /// Sets the provisioned schedule version.
    pub fn set_schedule_version(&mut self, version: &str) -> (res: Result<(), String>)
        ensures
            final(self).ran(
                old(self),
                Statement::SetMeta { key: SCHEDULE_VERSION@, value: version@ },
                res,
            ),
    {
        self.meta_set(SCHEDULE_VERSION, version)
    }

    /// `self` after `before` read the schedule version, with the given reply.
    pub open spec fn read_version(
        &self,
        before: &MaintenanceDb,
        reply: Result<Option<Seq<char>>, Seq<char>>,
    ) -> bool {
        self.read_meta(before, SCHEDULE_VERSION@, reply)
    }

    /// Whether the bike has a provisioned schedule version.
    pub fn is_provisioned(&mut self) -> (res: bool)
        ensures
            exists|reply: Result<Option<Seq<char>>, Seq<char>>|
                {
                    &&& #[trigger] final(self).read_version(old(self), reply)
                    &&& res == provisioned(reply)
                },
    {
        let answer = self.meta_get(SCHEDULE_VERSION);
        let ghost reply = choose|reply: Result<Option<Seq<char>>, Seq<char>>|
            {
                &&& #[trigger] self.read_meta(old(self), SCHEDULE_VERSION@, reply)
                &&& meta_answer(SCHEDULE_VERSION@, reply) == crate::sql::told_text(answer)
            };
        assert(self.read_version(old(self), reply));
        provisioned_by(answer)
    }

    /// The provisioned schedule version; empty where there is none.
    pub fn schedule_version(&mut self) -> (res: String)
        ensures
            exists|reply: Result<Option<Seq<char>>, Seq<char>>|
                {
                    &&& #[trigger] final(self).read_version(old(self), reply)
                    &&& res@ == version_in(reply)
                },
    {
        let answer = self.meta_get(SCHEDULE_VERSION);
        let ghost reply = choose|reply: Result<Option<Seq<char>>, Seq<char>>|
            {
                &&& #[trigger] self.read_meta(old(self), SCHEDULE_VERSION@, reply)
                &&& meta_answer(SCHEDULE_VERSION@, reply) == crate::sql::told_text(answer)
            };
        assert(self.read_version(old(self), reply));
        version_from(answer)
    }

    /// `self` after `before` counted the maintenance log, with the given reply: where
    /// counting succeeded, it is the number of rows that a private database holds, and
    /// of no database negative.
    pub open spec fn counted_services(
        &self,
        before: &MaintenanceDb,
        reply: Result<i64, Seq<char>>,
    ) -> bool {
        &&& reply is Ok ==> reply->Ok_0 >= 0
        &&& before.is_private() && reply is Ok ==> reply->Ok_0 == before.tables().services.len()
        &&& self.asked(before, Request::QueryCount { sql: COUNT_SERVICES@, count: reply })
    }

    /// Count of maintenance-log rows; zero where it cannot be taken.
    pub fn maintenance_count(&mut self) -> (res: i64)
        ensures
            res >= 0,
            exists|reply: Result<i64, Seq<char>>|
                {
                    &&& #[trigger] final(self).counted_services(old(self), reply)
                    &&& res == count_in(reply)
                },
    {
        let outcome = query_count(&mut self.conn, COUNT_SERVICES);
        assert(self.counted_services(old(self), crate::sql::told(outcome)));
        match outcome {
            Ok(count) => count,
            Err(_) => 0,
        }
    }

    /// `self` after `before` ran the first `n` of some statements, each after the success
    /// of the one before it, the last with the outcome `res`.
    pub open spec fn ran_first(
        &self,
        before: &MaintenanceDb,
        statements: Seq<Statement>,
        n: nat,
        res: Result<(), String>,
    ) -> bool {
        let start = before.history().len() as int;
        &&& n <= statements.len()
        &&& self.path() == before.path()
        &&& self.is_private() == before.is_private()
        &&& self.history().len() == start + n
        &&& before.history().is_prefix_of(self.history())
        &&& forall|i: int|
            0 <= i < n ==> {
                &&& (#[trigger] statements[i]).asked_by(self.history()[start + i])
                &&& i < n - 1 ==> self.history()[start + i].succeeded()
            }
        &&& if n == 0 {
            res is Ok
        } else {
            reported(res, statements[n - 1].failure_prefix(), self.history().last().failure())
        }
        &&& before.is_private() ==> self.tables() == crate::sql::apply_all(
            before.tables(),
            statements.take(
                if res is Ok {
                    n as int
                } else {
                    n - 1
                },
            ),
        )
    }

    /// One more statement.
    proof fn lemma_ran_next(
        before: &MaintenanceDb,
        mid: &MaintenanceDb,
        after: &MaintenanceDb,
        statements: Seq<Statement>,
        n: nat,
        res: Result<(), String>,
    )
        requires
            mid.ran_first(before, statements, n, Ok(())),
            n < statements.len(),
            after.ran(mid, statements[n as int], res),
        ensures
            after.ran_first(before, statements, n + 1, res),
    {
        let start = before.history().len() as int;
        assert(statements.take((n + 1) as int).drop_last() == statements.take(n as int));
        assert(before.history().is_prefix_of(after.history())) by {
            assert(after.history().subrange(0, start) == mid.history().subrange(0, start));
        }
        assert forall|i: int| 0 <= i < n + 1 implies {
            &&& (#[trigger] statements[i]).asked_by(after.history()[start + i])
            &&& i < n ==> after.history()[start + i].succeeded()
        } by {
            if i < n {
                assert(after.history()[start + i] == mid.history()[start + i]);
                assert(statements[i].asked_by(mid.history()[start + i]));
                assert(i == n - 1 ==> mid.history()[start + i] == mid.history().last());
            } else {
                assert(after.history()[start + i] == after.history().last());
            }
        }
    }

    /// `self` after `before` was seeded, with the outcome `res`: nothing is done where
    /// the bike shows to be provisioned or to have a log; otherwise the demo statements
    /// are run, up to the first that fails.
    pub open spec fn seeded(
        &self,
        before: &MaintenanceDb,
        version: Seq<char>,
        res: Result<(), String>,
    ) -> bool {
        exists|looked: MaintenanceDb, reply: Result<Option<Seq<char>>, Seq<char>>|
            {
                &&& #[trigger] looked.read_version(before, reply)
                &&& if provisioned(reply) {
                    res is Ok && *self == looked
                } else {
                    self.seeded_by_count(&looked, version, res)
                }
            }
    }

    /// The part of [`MaintenanceDb::seeded`] that follows the look at the version.
    pub open spec fn seeded_by_count(
        &self,
        before: &MaintenanceDb,
        version: Seq<char>,
        res: Result<(), String>,
    ) -> bool {
        exists|counted: MaintenanceDb, reply: Result<i64, Seq<char>>|
            {
                &&& #[trigger] counted.counted_services(before, reply)
                &&& if count_in(reply) > 0 {
                    res is Ok && *self == counted
                } else {
                    exists|n: nat|
                        {
                            &&& #[trigger] self.ran_first(&counted, demo_statements(version), n, res)
                            &&& n > 0
                            &&& res is Ok ==> n == demo_statements(version).len()
                        }
                }
            }
    }

    /// Seeds a plausible store for demo bikes on first run. Does nothing where the bike
    /// is already provisioned or has a maintenance log.
    pub fn seed_demo(&mut self, version: &str) -> (res: Result<(), String>)
        ensures
            final(self).seeded(old(self), version@, res),
    {
        let ghost before = *self;
        if self.is_provisioned() {
            return Ok(());
        }
        let ghost looked = *self;
        if self.maintenance_count() > 0 {
            return Ok(());
        }
        let ghost counted = *self;
        let ghost statements = demo_statements(version@);
        let first = demo_service("engine-oil", Some("break-in service"));
        let second = demo_service("final-drive", None);

        let res = self.set_schedule_version(version);
        proof {
            assert(counted.history().is_prefix_of(counted.history()));
            assert(counted.ran_first(&counted, statements, 0, Ok(())));
            Self::lemma_ran_next(&counted, &counted, &*self, statements, 0, res);
        }
        if res.is_err() {
            return res;
        }
        let ghost mid = *self;
        let res = self.meta_set(ENGINE_HOURS, "310.5");
        proof {
            Self::lemma_ran_next(&counted, &mid, &*self, statements, 1, res);
        }
        if res.is_err() {
            return res;
        }
        let ghost mid = *self;
        let res = self.record_service(&first);
        proof {
            Self::lemma_ran_next(&counted, &mid, &*self, statements, 2, res);
        }
        if res.is_err() {
            return res;
        }
        let ghost mid = *self;
        let res = self.record_service(&second);
        proof {
            Self::lemma_ran_next(&counted, &mid, &*self, statements, 3, res);
        }
        res
    }
}

/// The maintenance-log row of a demo service.
pub open spec fn demo_row(item_id: Seq<char>, note: Option<Seq<char>>) -> ServiceRow {
    ServiceRow {
        item_id,
        performed_at: "2025-09-01T09:00:00.000Z"@,
        odometer_km: crate::sql::whole_real(6000),
        engine_hours: Some(crate::sql::whole_real(150)),
        note,
    }
}

/// The statements that seed a demo bike.
pub open spec fn demo_statements(version: Seq<char>) -> Seq<Statement> {
    seq![
        Statement::SetMeta { key: SCHEDULE_VERSION@, value: version },
        Statement::SetMeta { key: ENGINE_HOURS@, value: "310.5"@ },
        Statement::InsertService(demo_row("engine-oil"@, Some("break-in service"@))),
        Statement::InsertService(demo_row("final-drive"@, None)),
    ]
}

/// A demo service.
fn demo_service(item_id: &str, note: Option<&str>) -> (res: MaintenanceLogEntry<
    rusqlite::types::Value,
>)
    ensures
        MaintenanceDb::service_row(&res) == demo_row(
            item_id@,
            match note {
                Some(note) => Some(note@),
                None => None,
            },
        ),
{
    MaintenanceLogEntry {
        item_id: item_id.to_owned(),
        performed_at: "2025-09-01T09:00:00.000Z".to_owned(),
        odometer_km: whole_number(6000),
        engine_hours: Some(whole_number(150)),
        note: match note {
            Some(note) => Some(note.to_owned()),
            None => None,
        },
    }
}

/// What a read of the metadata entry `key` is answered, from SQLite's reply: the words
/// of a failure get their context.
pub open spec fn meta_answer(
    key: Seq<char>,
    reply: Result<Option<Seq<char>>, Seq<char>>,
) -> Result<Option<Seq<char>>, Seq<char>> {
    match reply {
        Ok(value) => Ok(value),
        Err(cause) => Err("meta "@ + key + ": "@ + cause),
    }
}

/// Whether a read of the schedule version shows a provisioned bike: it found one that
/// is not empty.
pub open spec fn provisioned(reply: Result<Option<Seq<char>>, Seq<char>>) -> bool {
    reply matches Ok(Some(version)) && version.len() > 0
}

/// The schedule version that a read of it shows.
pub open spec fn version_in(reply: Result<Option<Seq<char>>, Seq<char>>) -> Seq<char> {
    match reply {
        Ok(Some(version)) => version,
        _ => Seq::empty(),
    }
}

/// The number of rows that a count shows.
pub open spec fn count_in(reply: Result<i64, Seq<char>>) -> i64 {
    match reply {
        Ok(count) => count,
        Err(_) => 0,
    }
}

/// Whether a read of the schedule version shows a provisioned bike.
pub fn provisioned_by(reply: Result<Option<String>, String>) -> (res: bool)
    ensures
        res == provisioned(crate::sql::told_text(reply)),
{
    match reply {
        Ok(Some(version)) => !version.as_str().is_empty(),
        _ => false,
    }
}

/// The schedule version that a read of it shows; empty where it shows none.
pub fn version_from(reply: Result<Option<String>, String>) -> (res: String)
    ensures
        res@ == version_in(crate::sql::told_text(reply)),
{
    match reply {
        Ok(Some(version)) => version,
        _ => String::new(),
    }
}

/// The name of the file that a process copies its database into.
pub fn snapshot_file_name(process_id: u32) -> (res: String)
    ensures
        res@ == "wingman-snapshot-"@ + crate::port::decimal(process_id as nat) + ".db"@,
{
    let mut name = "wingman-snapshot-".to_owned();
    push_decimal(&mut name, process_id);
    name.append(".db");
    name
}

/// What a snapshot gives, from the outcome of reading the file that it was copied into.
pub fn finish_snapshot(read: Result<Vec<u8>, String>) -> (res: Result<Vec<u8>, String>)
    ensures
        match read {
            Ok(bytes) => res matches Ok(snapshot) && snapshot@ == bytes@,
            Err(cause) => res matches Err(words) && words@ == "read snapshot: "@ + cause@,
        },
{
    match read {
        Ok(bytes) => Ok(bytes),
        Err(cause) => Err(joined("read snapshot: ", cause.as_str())),
    }
}

/// Law: no statement ever takes a row out of the maintenance log or the error history,
/// or changes one: what the tables held stays in front of what they hold.
pub proof fn law_record_only_grows(statement: Statement, before: Tables)
    ensures
        before.services.is_prefix_of(statement.apply(before).services),
        before.errors.is_prefix_of(statement.apply(before).errors),
{
}

/// Law: a recorded error is the newest one. A read of the error history of a private
/// database gives it back first, and behind it what the read would have given before,
/// as far as the limit allows.
pub proof fn law_error_is_read_back(
    before: MaintenanceDb,
    after: MaintenanceDb,
    row: ErrorRow,
    limit: u32,
    entries: Seq<ErrorEntry>,
)
    requires
        before.is_private(),
        after.ran(&before, Statement::InsertError(row), Ok(())),
        crate::sql::entries_read(
            entries,
            crate::sql::newest(after.tables().errors, limit as nat),
        ),
        limit > 0,
    ensures
        entries.len() > 0,
        entries[0].reads(row, crate::sql::real_read_back(row.odometer_km)),
        crate::sql::entries_read(
            entries.skip(1),
            crate::sql::newest(before.tables().errors, (limit - 1) as nat),
        ),
{
    let now = crate::sql::newest(after.tables().errors, limit as nat);
    let rest = crate::sql::newest(before.tables().errors, (limit - 1) as nat);
    assert(now == seq![row] + rest);
    assert forall|i: int| 0 <= i < rest.len() implies (#[trigger] entries.skip(1)[i]).reads(
        rest[i],
        crate::sql::real_read_back(rest[i].odometer_km),
    ) by {
        assert(entries.skip(1)[i] == entries[i + 1]);
        assert(now[i + 1] == rest[i]);
    }
}

/// Law: a recorded service is one more in the maintenance log.
pub proof fn law_service_is_counted(
    before: MaintenanceDb,
    after: MaintenanceDb,
    row: ServiceRow,
    counted: MaintenanceDb,
    reply: Result<i64, Seq<char>>,
)
    requires
        before.is_private(),
        after.ran(&before, Statement::InsertService(row), Ok(())),
        counted.counted_services(&after, reply),
        reply is Ok,
    ensures
        count_in(reply) == before.tables().services.len() + 1,
{
}

/// Law: a metadata entry that was set is what is read under its key, and setting it
/// leaves every other entry as it was.
pub proof fn law_meta_entry_is_read_back(
    before: MaintenanceDb,
    after: MaintenanceDb,
    key: Seq<char>,
    value: Seq<char>,
    reply: Result<Option<Seq<char>>, Seq<char>>,
    other_key: Seq<char>,
)
    requires
        before.is_private(),
        after.ran(&before, Statement::SetMeta { key, value }, Ok(())),
        after.meta_reply(key, reply),
        reply is Ok,
        other_key != key,
    ensures
        reply == Ok::<Option<Seq<char>>, Seq<char>>(Some(value)),
        crate::sql::meta_entry(after.tables().meta, other_key) == crate::sql::meta_entry(
            before.tables().meta,
            other_key,
        ),
{
}

/// Law: the schedule version that was set is the one that is reported, and the bike is
/// then provisioned exactly where it is not empty.
pub proof fn law_version_is_read_back(
    before: MaintenanceDb,
    after: MaintenanceDb,
    version: Seq<char>,
    looked: MaintenanceDb,
    reply: Result<Option<Seq<char>>, Seq<char>>,
)
    requires
        before.is_private(),
        after.ran(
            &before,
            Statement::SetMeta { key: SCHEDULE_VERSION@, value: version },
            Ok(()),
        ),
        looked.read_version(&after, reply),
        reply is Ok,
    ensures
        version_in(reply) == version,
        provisioned(reply) == (version.len() > 0),
{
}

/// Law: on the same reply of the database, a bike is provisioned exactly where the
/// schedule version that is reported is not empty.
pub proof fn law_provisioned_means_version(reply: Result<Option<Seq<char>>, Seq<char>>)
    ensures
        provisioned(reply) == (version_in(reply).len() > 0),
{
}

/// Law: two reads of a private database that both succeed agree: the bike is provisioned
/// exactly where the schedule version that is reported is not empty. Neither read changes
/// anything.
pub proof fn law_provisioned_agrees_with_version(
    before: MaintenanceDb,
    looked: MaintenanceDb,
    first: Result<Option<Seq<char>>, Seq<char>>,
    again: MaintenanceDb,
    second: Result<Option<Seq<char>>, Seq<char>>,
)
    requires
        before.is_private(),
        looked.read_version(&before, first),
        again.read_version(&looked, second),
        first is Ok,
        second is Ok,
    ensures
        provisioned(first) == (version_in(second).len() > 0),
        again.tables() == before.tables(),
{
}

/// Law: a statement that fails leaves a private database as it was.
pub proof fn law_failure_changes_nothing(
    before: MaintenanceDb,
    after: MaintenanceDb,
    statement: Statement,
    words: String,
)
    requires
        before.is_private(),
        after.ran(&before, statement, Err(words)),
    ensures
        after.tables() == before.tables(),
{
}

/// Law: a service that is recorded twice stands in the maintenance log twice, behind
/// what stood there, with its texts as they were given.
pub proof fn law_service_recorded_twice(
    before: MaintenanceDb,
    once: MaintenanceDb,
    twice: MaintenanceDb,
    row: ServiceRow,
)
    requires
        before.is_private(),
        once.ran(&before, Statement::InsertService(row), Ok(())),
        twice.ran(&once, Statement::InsertService(row), Ok(())),
    ensures
        twice.tables().services == before.tables().services.push(row).push(row),
        twice.tables().errors == before.tables().errors,
        twice.tables().meta == before.tables().meta,
{
}

/// Law: of a private database, a read of the error history gives as many entries as the
/// limit allows and the history has, newest first; a longer read starts with what a
/// shorter one gives.
pub proof fn law_recent_errors(
    errors: Seq<ErrorRow>,
    limit: u32,
    entries: Seq<ErrorEntry>,
    longer_limit: u32,
    longer_entries: Seq<ErrorEntry>,
)
    requires
        limit <= longer_limit,
        crate::sql::entries_read(entries, crate::sql::newest(errors, limit as nat)),
        crate::sql::entries_read(longer_entries, crate::sql::newest(errors, longer_limit as nat)),
    ensures
        entries.len() == (if limit < errors.len() {
            limit as nat
        } else {
            errors.len()
        }),
        entries.len() <= longer_entries.len(),
        forall|i: int|
            0 <= i < entries.len() ==> {
                let row = errors[errors.len() - 1 - i];
                let reading = crate::sql::real_read_back(row.odometer_km);
                &&& (#[trigger] entries[i]).reads(row, reading)
                &&& longer_entries[i].reads(row, reading)
            },
{
    let rows = crate::sql::newest(errors, limit as nat);
    let longer_rows = crate::sql::newest(errors, longer_limit as nat);
    assert forall|i: int| 0 <= i < entries.len() implies {
        let row = errors[errors.len() - 1 - i];
        let reading = crate::sql::real_read_back(row.odometer_km);
        &&& (#[trigger] entries[i]).reads(row, reading)
        &&& longer_entries[i].reads(row, reading)
    } by {
        assert(rows[i] == longer_rows[i]);
        assert(longer_entries[i].reads(
            longer_rows[i],
            crate::sql::real_read_back(longer_rows[i].odometer_km),
        ));
    }
}

/// What seeding adds: the version and two services.
proof fn lemma_demo_effect(before: Tables, version: Seq<char>)
    ensures
        ({
            let after = crate::sql::apply_all(before, demo_statements(version));
            &&& after.services.len() == before.services.len() + 2
            &&& crate::sql::meta_entry(after.meta, SCHEDULE_VERSION@) == Some(version)
        }),
{
    let statements = demo_statements(version);
    reveal_with_fuel(crate::sql::apply_all, 5);
    assert(statements.drop_last().last() == statements[2]);
    assert(statements.drop_last().drop_last().last() == statements[1]);
    assert(statements.drop_last().drop_last().drop_last().last() == statements[0]);
    reveal_strlit("schedule_version");
    reveal_strlit("engine_hours");
    assert(SCHEDULE_VERSION@.len() != ENGINE_HOURS@.len());
}

/// Law: seeding a private database that has no schedule version and no maintenance log
/// succeeds, provided that SQLite does what it is asked; the database then holds the
/// version and the two demo services, on top of what it held.
pub proof fn law_seeding_fills_an_empty_store(
    before: MaintenanceDb,
    after: MaintenanceDb,
    version: Seq<char>,
    res: Result<(), String>,
)
    requires
        before.is_private(),
        before.tables().services.len() == 0,
        !provisioned(Ok(crate::sql::meta_entry(before.tables().meta, SCHEDULE_VERSION@))),
        after.seeded(&before, version, res),
        forall|i: int|
            before.history().len() <= i < after.history().len() ==> (#[trigger] after.history()[i])
                .succeeded(),
    ensures
        res is Ok,
        after.tables() == crate::sql::apply_all(before.tables(), demo_statements(version)),
        after.tables().services.len() == 2,
        crate::sql::meta_entry(after.tables().meta, SCHEDULE_VERSION@) == Some(version),
{
    lemma_demo_effect(before.tables(), version);
    let statements = demo_statements(version);
    assert(statements.take(statements.len() as int) == statements);
    let (looked, reply) = choose|looked: MaintenanceDb, reply: Result<Option<Seq<char>>, Seq<char>>|
        {
            &&& #[trigger] looked.read_version(&before, reply)
            &&& if provisioned(reply) {
                res is Ok && after == looked
            } else {
                after.seeded_by_count(&looked, version, res)
            }
        };
    let start = before.history().len() as int;
    assert(looked.history()[start] == Request::QueryText {
        sql: GET_META@,
        key: SCHEDULE_VERSION@,
        found: reply,
    });
    let (counted, count) = choose|counted: MaintenanceDb, count: Result<i64, Seq<char>>|
        {
            &&& #[trigger] counted.counted_services(&looked, count)
            &&& if count_in(count) > 0 {
                res is Ok && after == counted
            } else {
                exists|n: nat|
                    {
                        &&& #[trigger] after.ran_first(&counted, statements, n, res)
                        &&& n > 0
                        &&& res is Ok ==> n == statements.len()
                    }
            }
        };
    assert(after.history()[after.history().len() - 1].succeeded());
}

/// Law: a database whose private tables are empty, as those of a database in memory are
/// once it is open, shows no schedule version, no service and no error, and the bike is
/// not provisioned. A read that fails shows no more.
pub proof fn law_empty_store_shows_nothing(
    db: MaintenanceDb,
    looked: MaintenanceDb,
    reply: Result<Option<Seq<char>>, Seq<char>>,
    counted: MaintenanceDb,
    count: Result<i64, Seq<char>>,
    limit: u32,
    entries: Seq<ErrorEntry>,
)
    requires
        db.is_private(),
        db.tables() == Tables::empty(),
        looked.read_version(&db, reply),
        counted.counted_services(&db, count),
        crate::sql::entries_read(entries, crate::sql::newest(db.tables().errors, limit as nat)),
    ensures
        version_in(reply) == Seq::<char>::empty(),
        !provisioned(reply),
        count_in(count) == 0,
        entries.len() == 0,
{
}

/// Law: seeding leaves a store alone that shows a schedule version or a maintenance log,
/// wherever the database is: it succeeds, and SQLite is asked for nothing beyond the read
/// of the version and, where that shows none, the count.
pub proof fn law_used_store_is_not_seeded(
    before: MaintenanceDb,
    after: MaintenanceDb,
    version: Seq<char>,
    res: Result<(), String>,
)
    requires
        after.seeded(&before, version, res),
    ensures
        ({
            let start = before.history().len() as int;
            let asked = after.history();
            &&& asked.len() > start && asked.take(start) == before.history()
            &&& asked[start] matches Request::QueryText { sql, key, found }
            &&& sql == GET_META@ && key == SCHEDULE_VERSION@
            &&& if provisioned(found) {
                res is Ok && asked.len() == start + 1
            } else {
                &&& asked.len() > start + 1
                &&& asked[start + 1] matches Request::QueryCount { sql, count }
                &&& sql == COUNT_SERVICES@
                &&& count_in(count) > 0 ==> res is Ok && asked.len() == start + 2
            }
        }),
{
    let start = before.history().len() as int;
    let (looked, reply) = choose|looked: MaintenanceDb, reply: Result<Option<Seq<char>>, Seq<char>>|
        {
            &&& #[trigger] looked.read_version(&before, reply)
            &&& if provisioned(reply) {
                res is Ok && after == looked
            } else {
                after.seeded_by_count(&looked, version, res)
            }
        };
    if !provisioned(reply) {
        let (counted, count) = choose|counted: MaintenanceDb, count: Result<i64, Seq<char>>|
            {
                &&& #[trigger] counted.counted_services(&looked, count)
                &&& if count_in(count) > 0 {
                    res is Ok && after == counted
                } else {
                    exists|n: nat|
                        {
                            &&& #[trigger] after.ran_first(
                                &counted,
                                demo_statements(version),
                                n,
                                res,
                            )
                            &&& n > 0
                            &&& res is Ok ==> n == demo_statements(version).len()
                        }
                }
            };
        let seen = counted.history();
        assert(seen.is_prefix_of(after.history()));
        assert(after.history().subrange(0, seen.len() as int) == seen);
        assert(after.history()[start] == seen[start]);
        assert(after.history()[start + 1] == seen[start + 1]);
        assert(after.history().take(start) == seen.take(start));
    }
    assert(after.history().take(start) == before.history());
}

/// Law: seeding is idempotent. Once a private database has been seeded, seeding it
/// again, with whatever version, succeeds and changes nothing, provided that SQLite
/// answers what it is asked: a read that fails counts as an empty store.
pub proof fn law_seeding_is_idempotent(
    before: MaintenanceDb,
    once: MaintenanceDb,
    twice: MaintenanceDb,
    version: Seq<char>,
    second_version: Seq<char>,
    res: Result<(), String>,
)
    requires
        before.is_private(),
        once.seeded(&before, version, Ok(())),
        twice.seeded(&once, second_version, res),
        forall|i: int|
            once.history().len() <= i < twice.history().len() ==> (#[trigger] twice.history()[i])
                .succeeded(),
    ensures
        res is Ok,
        twice.tables() == once.tables(),
        once.tables().services.len() > 0 || provisioned(
            Ok(crate::sql::meta_entry(once.tables().meta, SCHEDULE_VERSION@)),
        ),
{
    lemma_demo_effect(before.tables(), version);
    let statements = demo_statements(version);
    assert(statements.take(statements.len() as int) == statements);
    let (looked, reply) = choose|looked: MaintenanceDb, reply: Result<Option<Seq<char>>, Seq<char>>|
        {
            &&& #[trigger] looked.read_version(&once, reply)
            &&& if provisioned(reply) {
                res is Ok && twice == looked
            } else {
                twice.seeded_by_count(&looked, second_version, res)
            }
        };
    let asked = Request::QueryText { sql: GET_META@, key: SCHEDULE_VERSION@, found: reply };
    assert(looked.history()[once.history().len() as int] == asked);
    if !provisioned(reply) {
        let (counted, count) = choose|counted: MaintenanceDb, count: Result<i64, Seq<char>>|
            {
                &&& #[trigger] counted.counted_services(&looked, count)
                &&& if count_in(count) > 0 {
                    res is Ok && twice == counted
                } else {
                    exists|n: nat|
                        {
                            &&& #[trigger] twice.ran_first(
                                &counted,
                                demo_statements(second_version),
                                n,
                                res,
                            )
                            &&& n > 0
                            &&& res is Ok ==> n == demo_statements(second_version).len()
                        }
                }
            };
        let i = once.history().len() as int;
        let seen = counted.history();
        assert(seen[i] == asked);
        assert(seen[i + 1] == Request::QueryCount { sql: COUNT_SERVICES@, count });
        assert(twice.history().subrange(0, seen.len() as int) == seen);
        assert(twice.history().subrange(0, seen.len() as int)[i] == twice.history()[i]);
        assert(twice.history().subrange(0, seen.len() as int)[i + 1] == twice.history()[i + 1]);
    }
}

/// Law: recording a service asks SQLite for one thing: to insert a row with the entry's own
/// item, time, odometer reading, engine hours and note, each in its column, what the entry
/// lacks as `NULL`. It succeeds exactly where SQLite does, and otherwise gives SQLite's words.
pub proof fn law_record_service(
    db: &mut MaintenanceDb,
    entry: &MaintenanceLogEntry<rusqlite::types::Value>,
    res: Result<(), String>,
)
    requires
        call_ensures(MaintenanceDb::record_service, (db, entry), res),
    ensures
        ({
            let before = crate::sql::asked_over(old(db).connection());
            let asked = crate::sql::asked_over(final(db).connection());
            &&& asked.len() == before.len() + 1
            &&& asked.drop_last() == before
            &&& crate::sql::opened_path(final(db).connection()) == crate::sql::opened_path(
                old(db).connection(),
            )
            &&& crate::sql::is_private(final(db).connection()) == crate::sql::is_private(
                old(db).connection(),
            )
            &&& asked.last() matches Request::Execute { sql, params, changed }
            &&& sql == INSERT_SERVICE@
            &&& params.len() == 5
            &&& params[0] == Cell::Text(entry.item_id@)
            &&& params[1] == Cell::Text(entry.performed_at@)
            &&& params[2] == Cell::Real(entry.odometer_km)
            &&& entry.engine_hours is None <==> params[3] is Null
            &&& entry.engine_hours matches Some(hours) ==> params[3] == Cell::Real(hours)
            &&& entry.note is None <==> params[4] is Null
            &&& entry.note matches Some(note) ==> params[4] == Cell::Text(note@)
            &&& changed is Ok <==> res is Ok
            &&& changed matches Err(cause) ==> (res matches Err(words) && words@ ==
                "record service: "@ + cause)
        }),
{
}

/// Law: in a private database a recorded service stands behind all services before it,
/// with the entry's own item, time, odometer reading, engine hours and note, and nothing
/// else has changed; where recording fails, nothing has changed at all.
pub proof fn law_service_is_recorded(
    db: &mut MaintenanceDb,
    entry: &MaintenanceLogEntry<rusqlite::types::Value>,
    res: Result<(), String>,
)
    requires
        call_ensures(MaintenanceDb::record_service, (db, entry), res),
        crate::sql::is_private(old(db).connection()),
    ensures
        crate::sql::meta_table(final(db).connection()) == crate::sql::meta_table(
            old(db).connection(),
        ),
        crate::sql::error_log(final(db).connection()) == crate::sql::error_log(
            old(db).connection(),
        ),
        res is Err ==> crate::sql::service_log(final(db).connection()) == crate::sql::service_log(
            old(db).connection(),
        ),
        res is Ok ==> {
            let before = crate::sql::service_log(old(db).connection());
            let after = crate::sql::service_log(final(db).connection());
            &&& after.len() == before.len() + 1
            &&& after.drop_last() == before
            &&& after.last().item_id == entry.item_id@
            &&& after.last().performed_at == entry.performed_at@
            &&& after.last().odometer_km == entry.odometer_km
            &&& after.last().engine_hours == entry.engine_hours
            &&& after.last().note is None <==> entry.note is None
            &&& entry.note matches Some(note) ==> after.last().note == Some(note@)
        },
{
    let before = old(db).tables();
    let after = final(db).tables();
    if res is Ok {
        assert(after.services.drop_last() == before.services);
    }
}

/// Law: recording an anomaly under a timestamp asks SQLite for one thing: to insert a row
/// with that timestamp, the event's own id, the word for its edge, and the event's own
/// severity, signal and message, each in its column, and the odometer reading.
pub proof fn law_record_error_at(
    db: &mut MaintenanceDb,
    ts: &str,
    ev: &AnomalyEvent,
    odometer_km: &rusqlite::types::Value,
    res: Result<(), String>,
)
    requires
        call_ensures(MaintenanceDb::record_error_at, (db, ts, ev, odometer_km), res),
    ensures
        ({
            let before = crate::sql::asked_over(old(db).connection());
            let asked = crate::sql::asked_over(final(db).connection());
            &&& asked.len() == before.len() + 1
            &&& asked.drop_last() == before
            &&& crate::sql::opened_path(final(db).connection()) == crate::sql::opened_path(
                old(db).connection(),
            )
            &&& crate::sql::is_private(final(db).connection()) == crate::sql::is_private(
                old(db).connection(),
            )
            &&& asked.last() matches Request::Execute { sql, params, changed }
            &&& sql == INSERT_ERROR@
            &&& params.len() == 7
            &&& params[0] == Cell::Text(ts@)
            &&& params[1] == Cell::Text(ev.id@)
            &&& ev.edge == Edge::Raised ==> params[2] == Cell::Text("raised"@)
            &&& ev.edge == Edge::Cleared ==> params[2] == Cell::Text("cleared"@)
            &&& params[3] == Cell::Text(ev.severity@)
            &&& params[4] == Cell::Text(ev.vss@)
            &&& params[5] == Cell::Text(ev.message@)
            &&& params[6] == Cell::Real(*odometer_km)
            &&& changed is Ok <==> res is Ok
            &&& changed matches Err(cause) ==> (res matches Err(words) && words@ ==
                "record error: "@ + cause)
        }),
{
}

/// Law: in a private database a recorded anomaly stands behind all errors before it, with
/// the event's own texts, for either edge, and nothing else has changed; where recording
/// fails, nothing has changed at all.
pub proof fn law_error_is_recorded(
    db: &mut MaintenanceDb,
    ts: &str,
    ev: &AnomalyEvent,
    odometer_km: &rusqlite::types::Value,
    res: Result<(), String>,
)
    requires
        call_ensures(MaintenanceDb::record_error_at, (db, ts, ev, odometer_km), res),
        crate::sql::is_private(old(db).connection()),
    ensures
        crate::sql::meta_table(final(db).connection()) == crate::sql::meta_table(
            old(db).connection(),
        ),
        crate::sql::service_log(final(db).connection()) == crate::sql::service_log(
            old(db).connection(),
        ),
        res is Err ==> crate::sql::error_log(final(db).connection()) == crate::sql::error_log(
            old(db).connection(),
        ),
        res is Ok ==> {
            let before = crate::sql::error_log(old(db).connection());
            let after = crate::sql::error_log(final(db).connection());
            &&& after.len() == before.len() + 1
            &&& after.drop_last() == before
            &&& after.last().ts == ts@
            &&& after.last().event == ev.id@
            &&& ev.edge == Edge::Raised ==> after.last().edge == "raised"@
            &&& ev.edge == Edge::Cleared ==> after.last().edge == "cleared"@
            &&& after.last().severity == ev.severity@
            &&& after.last().vss == ev.vss@
            &&& after.last().message == ev.message@
            &&& after.last().odometer_km == *odometer_km
        },
{
    let before = old(db).tables();
    let after = final(db).tables();
    if res is Ok {
        assert(after.errors.drop_last() == before.errors);
    }
}

/// Law: an anomaly is recorded under the timestamp of its own instant, and otherwise as
/// under any other timestamp.
pub proof fn law_record_error(
    db: &mut MaintenanceDb,
    ev: &AnomalyEvent,
    odometer_km: &rusqlite::types::Value,
    res: Result<(), String>,
)
    requires
        call_ensures(MaintenanceDb::record_error, (db, ev, odometer_km), res),
    ensures
        ({
            let before = crate::sql::asked_over(old(db).connection());
            let asked = crate::sql::asked_over(final(db).connection());
            &&& asked.len() == before.len() + 1
            &&& asked.drop_last() == before
            &&& crate::sql::opened_path(final(db).connection()) == crate::sql::opened_path(
                old(db).connection(),
            )
            &&& crate::sql::is_private(final(db).connection()) == crate::sql::is_private(
                old(db).connection(),
            )
            &&& asked.last() matches Request::Execute { sql, params, changed }
            &&& sql == INSERT_ERROR@
            &&& params.len() == 7
            &&& params[0] matches Cell::Text(ts)
            &&& crate::clock::rfc3339_text(ev.ts_ms) matches Some(text) ==> ts == text
            &&& -62167219200000 <= ev.ts_ms <= 253402300799999 ==> ts.len() == 24
                && crate::clock::shown(ts).instant() == ev.ts_ms
            &&& exists|instant: i64| crate::clock::rfc3339_text(instant) == Some(ts)
            &&& params[1] == Cell::Text(ev.id@)
            &&& ev.edge == Edge::Raised ==> params[2] == Cell::Text("raised"@)
            &&& ev.edge == Edge::Cleared ==> params[2] == Cell::Text("cleared"@)
            &&& params[3] == Cell::Text(ev.severity@)
            &&& params[4] == Cell::Text(ev.vss@)
            &&& params[5] == Cell::Text(ev.message@)
            &&& params[6] == Cell::Real(*odometer_km)
            &&& changed is Ok <==> res is Ok
            &&& changed matches Err(cause) ==> (res matches Err(words) && words@ ==
                "record error: "@ + cause)
        }),
{
    let ts = choose|ts: Seq<char>|
        {
            &&& #[trigger] crate::clock::stamps(ts, ev.ts_ms)
            &&& final(db).ran(
                old(db),
                Statement::InsertError(MaintenanceDb::error_row(ts, ev, *odometer_km)),
                res,
            )
        };
    if crate::clock::rfc3339_text(ev.ts_ms) is None && !crate::clock::in_four_digit_years(
        ev.ts_ms,
    ) {
        let now = choose|now: i64| #[trigger] crate::clock::texted(ts, now);
        assert(crate::clock::rfc3339_text(now) == Some(ts));
    } else {
        assert(crate::clock::rfc3339_text(ev.ts_ms) == Some(ts));
    }
}

/// Law: a read of the error history asks SQLite for one thing, with the limit that it was
/// given, hands its rows or its words on as they are, and never gives more than the limit.
pub proof fn law_recent_errors_request(
    db: &mut MaintenanceDb,
    limit: u32,
    res: Result<Vec<ErrorEntry>, String>,
)
    requires
        call_ensures(MaintenanceDb::recent_errors, (db, limit), res),
    ensures
        ({
            let before = crate::sql::asked_over(old(db).connection());
            let asked = crate::sql::asked_over(final(db).connection());
            &&& asked.len() == before.len() + 1
            &&& asked.drop_last() == before
            &&& crate::sql::opened_path(final(db).connection()) == crate::sql::opened_path(
                old(db).connection(),
            )
            &&& crate::sql::is_private(final(db).connection()) == crate::sql::is_private(
                old(db).connection(),
            )
            &&& asked.last() matches Request::QueryErrors { sql, limit: asked_for, rows }
            &&& sql == RECENT_ERRORS@
            &&& asked_for == limit
            &&& rows matches Ok(entries) ==> (res matches Ok(given) && given@ == entries)
            &&& rows matches Err(cause) ==> (res matches Err(words) && words@ == cause)
            &&& res matches Ok(given) ==> given@.len() <= limit
        }),
{
}

/// Law: of a private database, a read of the error history gives the newest rows, newest
/// first, as many as the limit allows and there are, each with its own texts, and changes
/// nothing.
pub proof fn law_recent_errors_are_the_newest(
    db: &mut MaintenanceDb,
    limit: u32,
    entries: Vec<ErrorEntry>,
)
    requires
        call_ensures(
            MaintenanceDb::recent_errors,
            (db, limit),
            Ok::<Vec<ErrorEntry>, String>(entries),
        ),
        crate::sql::is_private(old(db).connection()),
    ensures
        crate::sql::tables_of(final(db).connection()) == crate::sql::tables_of(
            old(db).connection(),
        ),
        ({
            let log = crate::sql::error_log(old(db).connection());
            &&& entries@.len() <= limit
            &&& entries@.len() <= log.len()
            &&& entries@.len() == limit || entries@.len() == log.len()
            &&& forall|i: int|
                0 <= i < entries@.len() ==> {
                    let row = log[log.len() - 1 - i];
                    &&& (#[trigger] entries@[i]).ts@ == row.ts
                    &&& entries@[i].event@ == row.event
                    &&& entries@[i].edge@ == row.edge
                    &&& entries@[i].severity matches Some(severity) && severity@ == row.severity
                    &&& entries@[i].vss matches Some(vss) && vss@ == row.vss
                    &&& entries@[i].message@ == row.message
                    &&& entries@[i].odometer_km == crate::sql::real_read_back(row.odometer_km)
                }
        }),
{
    let log = crate::sql::error_log(old(db).connection());
    let rows = crate::sql::newest(log, limit as nat);
    assert forall|i: int| 0 <= i < entries@.len() implies ({
        let row = log[log.len() - 1 - i];
        &&& (#[trigger] entries@[i]).ts@ == row.ts
        &&& entries@[i].event@ == row.event
        &&& entries@[i].edge@ == row.edge
        &&& entries@[i].severity matches Some(severity) && severity@ == row.severity
        &&& entries@[i].vss matches Some(vss) && vss@ == row.vss
        &&& entries@[i].message@ == row.message
        &&& entries@[i].odometer_km == crate::sql::real_read_back(row.odometer_km)
    }) by {
        assert(rows[i] == log[log.len() - 1 - i]);
        assert(entries@[i].reads(rows[i], crate::sql::real_read_back(rows[i].odometer_km)));
    }
}

/// Law: an anomaly that was recorded in a private database is what a read of the error
/// history then gives first, with the event's own texts, whichever edge it was.
pub proof fn law_recorded_error_is_read_first(
    db: &mut MaintenanceDb,
    ts: &str,
    ev: &AnomalyEvent,
    odometer_km: &rusqlite::types::Value,
    recorded: &mut MaintenanceDb,
    limit: u32,
    entries: Vec<ErrorEntry>,
)
    requires
        call_ensures(
            MaintenanceDb::record_error_at,
            (db, ts, ev, odometer_km),
            Ok::<(), String>(()),
        ),
        crate::sql::is_private(old(db).connection()),
        *old(recorded) == *final(db),
        call_ensures(
            MaintenanceDb::recent_errors,
            (recorded, limit),
            Ok::<Vec<ErrorEntry>, String>(entries),
        ),
        limit > 0,
    ensures
        entries@.len() > 0,
        entries@[0].ts@ == ts@,
        entries@[0].event@ == ev.id@,
        entries@[0].edge@ == (if ev.edge == Edge::Raised {
            "raised"@
        } else {
            "cleared"@
        }),
        entries@[0].severity matches Some(severity) && severity@ == ev.severity@,
        entries@[0].vss matches Some(vss) && vss@ == ev.vss@,
        entries@[0].message@ == ev.message@,
        entries@[0].odometer_km == crate::sql::real_read_back(*odometer_km),
{
    law_error_is_recorded(db, ts, ev, odometer_km, Ok(()));
    law_recent_errors_are_the_newest(recorded, limit, entries);
    assert(entries@[0].message@ == ev.message@);
}

/// Law: setting the schedule version or the odometer reading asks SQLite for one thing: to
/// set that entry to the text that was given.
pub proof fn law_setters(
    db: &mut MaintenanceDb,
    version: &str,
    res: Result<(), String>,
    other: &mut MaintenanceDb,
    odometer_km: &str,
    other_res: Result<(), String>,
)
    requires
        call_ensures(MaintenanceDb::set_schedule_version, (db, version), res),
        call_ensures(MaintenanceDb::set_odometer, (other, odometer_km), other_res),
    ensures
        ({
            let before = crate::sql::asked_over(old(db).connection());
            let asked = crate::sql::asked_over(final(db).connection());
            &&& asked.len() == before.len() + 1
            &&& asked.drop_last() == before
            &&& crate::sql::opened_path(final(db).connection()) == crate::sql::opened_path(
                old(db).connection(),
            )
            &&& crate::sql::is_private(final(db).connection()) == crate::sql::is_private(
                old(db).connection(),
            )
            &&& asked.last() matches Request::Execute { sql, params, changed }
            &&& sql == SET_META@
            &&& params == seq![Cell::Text("schedule_version"@), Cell::Text(version@)]
            &&& changed is Ok <==> res is Ok
            &&& changed matches Err(cause) ==> (res matches Err(words) && words@ ==
                ("meta set "@ + "schedule_version"@ + ": "@) + cause)
        }),
        ({
            let before = crate::sql::asked_over(old(other).connection());
            let asked = crate::sql::asked_over(final(other).connection());
            &&& asked.len() == before.len() + 1
            &&& asked.drop_last() == before
            &&& crate::sql::opened_path(final(other).connection()) == crate::sql::opened_path(
                old(other).connection(),
            )
            &&& crate::sql::is_private(final(other).connection()) == crate::sql::is_private(
                old(other).connection(),
            )
            &&& asked.last() matches Request::Execute { sql, params, changed }
            &&& sql == SET_META@
            &&& params == seq![Cell::Text("odometer_km"@), Cell::Text(odometer_km@)]
            &&& changed is Ok <==> other_res is Ok
            &&& changed matches Err(cause) ==> (other_res matches Err(words) && words@ ==
                ("meta set "@ + "odometer_km"@ + ": "@) + cause)
        }),
{
}

/// Law: in a private database, setting the schedule version sets the entry
/// `schedule_version` to the text that was given and leaves every other entry, the
/// services and the errors as they were; where it fails, nothing has changed at all.
pub proof fn law_version_is_set(db: &mut MaintenanceDb, version: &str, res: Result<(), String>)
    requires
        call_ensures(MaintenanceDb::set_schedule_version, (db, version), res),
        crate::sql::is_private(old(db).connection()),
    ensures
        crate::sql::meta_table(final(db).connection()) == (if res is Ok {
            crate::sql::meta_table(old(db).connection()).insert("schedule_version"@, version@)
        } else {
            crate::sql::meta_table(old(db).connection())
        }),
        crate::sql::service_log(final(db).connection()) == crate::sql::service_log(
            old(db).connection(),
        ),
        crate::sql::error_log(final(db).connection()) == crate::sql::error_log(
            old(db).connection(),
        ),
{
    assert(old(db).tables().meta == crate::sql::meta_table(old(db).connection()));
    assert(final(db).tables().meta == crate::sql::meta_table(final(db).connection()));
}

/// Law: the same of the odometer reading, under `odometer_km`.
pub proof fn law_odometer_is_set(db: &mut MaintenanceDb, odometer_km: &str, res: Result<(), String>)
    requires
        call_ensures(MaintenanceDb::set_odometer, (db, odometer_km), res),
        crate::sql::is_private(old(db).connection()),
    ensures
        crate::sql::meta_table(final(db).connection()) == (if res is Ok {
            crate::sql::meta_table(old(db).connection()).insert("odometer_km"@, odometer_km@)
        } else {
            crate::sql::meta_table(old(db).connection())
        }),
        crate::sql::service_log(final(db).connection()) == crate::sql::service_log(
            old(db).connection(),
        ),
        crate::sql::error_log(final(db).connection()) == crate::sql::error_log(
            old(db).connection(),
        ),
{
    assert(old(db).tables().meta == crate::sql::meta_table(old(db).connection()));
    assert(final(db).tables().meta == crate::sql::meta_table(final(db).connection()));
}

/// Law: the schedule version is read under `schedule_version`, and nothing else is asked
/// for. What SQLite finds is what is reported, and nothing is where it finds nothing or
/// fails; of a private database it finds what the entry holds.
pub proof fn law_schedule_version(db: &mut MaintenanceDb, res: String)
    requires
        call_ensures(MaintenanceDb::schedule_version, (db,), res),
    ensures
        ({
            let before = crate::sql::asked_over(old(db).connection());
            let asked = crate::sql::asked_over(final(db).connection());
            &&& asked.len() == before.len() + 1
            &&& asked.drop_last() == before
            &&& crate::sql::opened_path(final(db).connection()) == crate::sql::opened_path(
                old(db).connection(),
            )
            &&& crate::sql::is_private(final(db).connection()) == crate::sql::is_private(
                old(db).connection(),
            )
            &&& asked.last() matches Request::QueryText { sql, key, found }
            &&& sql == GET_META@
            &&& key == "schedule_version"@
            &&& found matches Ok(Some(version)) ==> res@ == version
            &&& !(found matches Ok(Some(_))) ==> res@.len() == 0
            &&& crate::sql::is_private(old(db).connection()) ==> {
                let meta = crate::sql::meta_table(old(db).connection());
                &&& crate::sql::tables_of(final(db).connection()) == crate::sql::tables_of(
                    old(db).connection(),
                )
                &&& found is Ok && meta.contains_key("schedule_version"@) ==> res@
                    == meta["schedule_version"@]
                &&& found is Ok && !meta.contains_key("schedule_version"@) ==> res@.len() == 0
            }
        }),
{
    let reply = choose|reply: Result<Option<Seq<char>>, Seq<char>>|
        {
            &&& #[trigger] final(db).read_version(old(db), reply)
            &&& res@ == version_in(reply)
        };
    assert(final(db).history().last() == Request::QueryText {
        sql: GET_META@,
        key: SCHEDULE_VERSION@,
        found: reply,
    });
    assert(old(db).tables().meta == crate::sql::meta_table(old(db).connection()));
    assert(final(db).history().drop_last() == old(db).history());
}

/// Law: whether the bike is provisioned is read under `schedule_version`, and nothing else
/// is asked for: it is exactly where SQLite finds a text there that is not empty.
pub proof fn law_is_provisioned(db: &mut MaintenanceDb, res: bool)
    requires
        call_ensures(MaintenanceDb::is_provisioned, (db,), res),
    ensures
        ({
            let before = crate::sql::asked_over(old(db).connection());
            let asked = crate::sql::asked_over(final(db).connection());
            &&& asked.len() == before.len() + 1
            &&& asked.drop_last() == before
            &&& crate::sql::opened_path(final(db).connection()) == crate::sql::opened_path(
                old(db).connection(),
            )
            &&& crate::sql::is_private(final(db).connection()) == crate::sql::is_private(
                old(db).connection(),
            )
            &&& asked.last() matches Request::QueryText { sql, key, found }
            &&& sql == GET_META@
            &&& key == "schedule_version"@
            &&& res <==> (found matches Ok(Some(version)) && version.len() > 0)
            &&& crate::sql::is_private(old(db).connection()) ==> {
                let meta = crate::sql::meta_table(old(db).connection());
                &&& crate::sql::tables_of(final(db).connection()) == crate::sql::tables_of(
                    old(db).connection(),
                )
                &&& found is Ok ==> (res <==> meta.contains_key("schedule_version"@)
                    && meta["schedule_version"@].len() > 0)
            }
        }),
{
    let reply = choose|reply: Result<Option<Seq<char>>, Seq<char>>|
        {
            &&& #[trigger] final(db).read_version(old(db), reply)
            &&& res == provisioned(reply)
        };
    assert(final(db).history().last() == Request::QueryText {
        sql: GET_META@,
        key: SCHEDULE_VERSION@,
        found: reply,
    });
    assert(old(db).tables().meta == crate::sql::meta_table(old(db).connection()));
    assert(final(db).history().drop_last() == old(db).history());
}

/// Law: counting asks SQLite for one thing. What it counts is the result, and zero where it
/// fails; of a private database it counts all services.
pub proof fn law_maintenance_count(db: &mut MaintenanceDb, res: i64)
    requires
        call_ensures(MaintenanceDb::maintenance_count, (db,), res),
    ensures
        ({
            let before = crate::sql::asked_over(old(db).connection());
            let asked = crate::sql::asked_over(final(db).connection());
            &&& asked.len() == before.len() + 1
            &&& asked.drop_last() == before
            &&& crate::sql::opened_path(final(db).connection()) == crate::sql::opened_path(
                old(db).connection(),
            )
            &&& crate::sql::is_private(final(db).connection()) == crate::sql::is_private(
                old(db).connection(),
            )
            &&& asked.last() matches Request::QueryCount { sql, count }
            &&& sql == COUNT_SERVICES@
            &&& count matches Ok(n) ==> res == n
            &&& count is Err ==> res == 0
            &&& crate::sql::is_private(old(db).connection()) ==> {
                &&& crate::sql::tables_of(final(db).connection()) == crate::sql::tables_of(
                    old(db).connection(),
                )
                &&& count is Ok ==> res == crate::sql::service_log(old(db).connection()).len()
            }
        }),
        res >= 0,
{
    let reply = choose|reply: Result<i64, Seq<char>>|
        {
            &&& #[trigger] final(db).counted_services(old(db), reply)
            &&& res == count_in(reply)
        };
    assert(final(db).history().last() == Request::QueryCount { sql: COUNT_SERVICES@, count: reply });
    assert(old(db).tables().services == crate::sql::service_log(old(db).connection()));
    assert(final(db).history().drop_last() == old(db).history());
}

/// Law: a snapshot asks SQLite for one thing: to copy the database into the target that was
/// given. Applying the schema asks for the schema. Neither changes a private database.
pub proof fn law_batches(
    db: &mut MaintenanceDb,
    target: &str,
    sql_text: String,
    res: Result<(), String>,
    other: &mut MaintenanceDb,
    other_res: Result<(), String>,
)
    requires
        call_ensures(MaintenanceDb::snapshot_into, (db, target), res),
        call_ensures(vacuum_statement, (target,), sql_text),
        call_ensures(MaintenanceDb::apply_schema, (other,), other_res),
    ensures
        ({
            let before = crate::sql::asked_over(old(db).connection());
            let asked = crate::sql::asked_over(final(db).connection());
            &&& asked.len() == before.len() + 1
            &&& asked.drop_last() == before
            &&& crate::sql::opened_path(final(db).connection()) == crate::sql::opened_path(
                old(db).connection(),
            )
            &&& crate::sql::is_private(final(db).connection()) == crate::sql::is_private(
                old(db).connection(),
            )
            &&& asked.last() matches Request::Batch { sql, failed }
            &&& sql == sql_text@
            &&& failed is None <==> res is Ok
            &&& failed matches Some(cause) ==> (res matches Err(words) && words@ == "snapshot: "@
                + cause)
            &&& crate::sql::is_private(old(db).connection()) ==> crate::sql::tables_of(
                final(db).connection(),
            ) == crate::sql::tables_of(old(db).connection())
        }),
        ({
            let before = crate::sql::asked_over(old(other).connection());
            let asked = crate::sql::asked_over(final(other).connection());
            &&& asked.len() == before.len() + 1
            &&& asked.drop_last() == before
            &&& crate::sql::opened_path(final(other).connection()) == crate::sql::opened_path(
                old(other).connection(),
            )
            &&& crate::sql::is_private(final(other).connection()) == crate::sql::is_private(
                old(other).connection(),
            )
            &&& asked.last() matches Request::Batch { sql, failed }
            &&& sql == SCHEMA@
            &&& failed is None <==> other_res is Ok
            &&& failed matches Some(cause) ==> (other_res matches Err(words) && words@
                == "db schema: "@ + cause)
            &&& crate::sql::is_private(old(other).connection()) ==> crate::sql::tables_of(
                final(other).connection(),
            ) == crate::sql::tables_of(old(other).connection())
        }),
{
}

/// Law: a database that was opened is the one at the path that was given, with the schema
/// asked for and nothing else; one in memory is private and empty.
pub proof fn law_open(path: &str, db: MaintenanceDb)
    requires
        call_ensures(MaintenanceDb::open, (path,), Ok::<MaintenanceDb, String>(db)),
    ensures
        crate::sql::opened_path(db.connection()) == path@,
        crate::sql::asked_over(db.connection()).len() == 1,
        crate::sql::asked_over(db.connection())[0] matches Request::Batch { sql, failed } && sql
            == SCHEMA@ && failed is None,
        path@ == ":memory:"@ ==> {
            &&& crate::sql::is_private(db.connection())
            &&& crate::sql::meta_table(db.connection()) == Map::<Seq<char>, Seq<char>>::empty()
            &&& crate::sql::service_log(db.connection()).len() == 0
            &&& crate::sql::error_log(db.connection()).len() == 0
        },
{
    assert(db.tables().meta == crate::sql::meta_table(db.connection()));
    assert(db.tables().services == crate::sql::service_log(db.connection()));
    assert(db.tables().errors == crate::sql::error_log(db.connection()));
}

/// Law: a database that could not be opened is reported with its path and the cause; one
/// that could be opened is handed on, over the same connection, once it has the schema.
pub proof fn law_from_connection(
    path: &str,
    opened: Result<rusqlite::Connection, String>,
    res: Result<MaintenanceDb, String>,
)
    requires
        call_ensures(MaintenanceDb::from_connection, (path, opened), res),
    ensures
        opened matches Err(cause) ==> (res matches Err(words) && words@ == "open db "@ + path@
            + ": "@ + cause@),
        opened matches Ok(conn) ==> (res matches Ok(db) ==> {
            let asked = crate::sql::asked_over(db.connection());
            &&& asked.len() == crate::sql::asked_over(conn).len() + 1
            &&& asked.drop_last() == crate::sql::asked_over(conn)
            &&& asked.last() matches Request::Batch { sql, failed } && sql == SCHEMA@ && failed
                is None
            &&& crate::sql::opened_path(db.connection()) == crate::sql::opened_path(conn)
            &&& crate::sql::is_private(conn) ==> crate::sql::tables_of(db.connection())
                == crate::sql::tables_of(conn)
        }),
        opened is Ok ==> (res matches Err(words) ==> exists|cause: Seq<char>|
            words@ == #[trigger] ("db schema: "@ + cause)),
{
    if let (Ok(conn), Ok(db)) = (opened, res) {
        assert(crate::sql::asked_over(db.connection()).drop_last() == crate::sql::asked_over(
            conn,
        ));
    }
    if let (Ok(conn), Err(words)) = (opened, res) {
        let (after, cause) = choose|after: rusqlite::Connection, cause: Seq<char>|
            {
                &&& crate::sql::opened_path(after) == crate::sql::opened_path(conn)
                &&& #[trigger] crate::sql::asked_over(after) == crate::sql::asked_over(conn).push(
                    Request::Batch { sql: SCHEMA@, failed: Some(cause) },
                )
                &&& words@ == #[trigger] (Statement::CreateSchema.failure_prefix() + cause)
            };
        assert(words@ == "db schema: "@ + cause);
    }
}

/// Law: a version read shows a provisioned bike exactly where it found a text that is not
/// empty, and what it found is the version; a read that found none, or failed, shows
/// neither.
pub proof fn law_version_replies(
    reply: Result<Option<String>, String>,
    is_provisioned: bool,
    version: String,
)
    requires
        call_ensures(provisioned_by, (reply,), is_provisioned),
        call_ensures(version_from, (reply,), version),
    ensures
        reply matches Ok(Some(found)) ==> version@ == found@ && (is_provisioned <==> found@.len()
            > 0),
        !(reply matches Ok(Some(_))) ==> version@.len() == 0 && !is_provisioned,
{
}

/// Law: the file of a snapshot is named by the process, in decimal between fixed words.
pub proof fn law_snapshot_file_name(process_id: u32, res: String, numeral: &mut String)
    requires
        call_ensures(snapshot_file_name, (process_id,), res),
        call_ensures(push_decimal, (numeral, process_id), ()),
        old(numeral)@ == "wingman-snapshot-"@,
    ensures
        res@ == final(numeral)@ + ".db"@,
{
}

/// Law: a snapshot is all bytes of its file; a file that cannot be read fails it, with the
/// cause behind `read snapshot: `.
pub proof fn law_finish_snapshot(read: Result<Vec<u8>, String>, res: Result<Vec<u8>, String>)
    requires
        call_ensures(finish_snapshot, (read,), res),
    ensures
        read matches Ok(bytes) ==> (res matches Ok(snapshot) && snapshot@ == bytes@),
        read matches Err(cause) ==> (res matches Err(words) && words@ == "read snapshot: "@
            + cause@),
{
}

/// Law: where the database of a bike is kept.
pub proof fn law_default_db_path()
    ensures
        DEFAULT_DB_PATH@ == "/var/lib/sigma-racer-wingman/wingman.db"@,
{
}

/// Whether a request is the insertion of a demo service: the item, a fixed time, odometer
/// reading and engine hours, and the note, where there is one.
pub open spec fn inserts_demo_service(
    request: Request,
    item_id: Seq<char>,
    note: Option<Seq<char>>,
) -> bool {
    &&& request matches Request::Execute { sql, params, .. }
    &&& sql == INSERT_SERVICE@
    &&& params.len() == 5
    &&& params[0] == Cell::Text(item_id)
    &&& params[1] == Cell::Text("2025-09-01T09:00:00.000Z"@)
    &&& params[2] == Cell::Real(crate::sql::whole_real(6000))
    &&& params[3] == Cell::Real(crate::sql::whole_real(150))
    &&& note is None ==> params[4] is Null
    &&& note matches Some(text) ==> params[4] == Cell::Text(text)
}

/// What seeding asked SQLite for, one thing after the other.
proof fn lemma_seeded_requests(
    before: &MaintenanceDb,
    after: &MaintenanceDb,
    version: Seq<char>,
    res: Result<(), String>,
)
    requires
        after.seeded(before, version, res),
    ensures
        ({
            let start = before.history().len() as int;
            let asked = after.history();
            &&& after.path() == before.path()
            &&& after.is_private() == before.is_private()
            &&& asked.len() > start && asked.take(start) == before.history()
            &&& asked[start] matches Request::QueryText { sql, key, found }
            &&& sql == GET_META@ && key == SCHEDULE_VERSION@
            &&& before.meta_reply(SCHEDULE_VERSION@, found)
            &&& if provisioned(found) {
                &&& res is Ok && asked.len() == start + 1
                &&& before.is_private() ==> after.tables() == before.tables()
            } else {
                &&& asked.len() > start + 1
                &&& asked[start + 1] matches Request::QueryCount { sql, count }
                &&& sql == COUNT_SERVICES@
                &&& before.is_private() && count is Ok ==> count->Ok_0
                    == before.tables().services.len()
                &&& if count_in(count) > 0 {
                    &&& res is Ok && asked.len() == start + 2
                    &&& before.is_private() ==> after.tables() == before.tables()
                } else {
                    let n = asked.len() - start - 2;
                    let statements = demo_statements(version);
                    &&& 1 <= n <= 4
                    &&& res is Ok ==> n == 4
                    &&& forall|i: int|
                        0 <= i < n ==> {
                            &&& (#[trigger] statements[i]).asked_by(asked[start + 2 + i])
                            &&& i < n - 1 ==> asked[start + 2 + i].succeeded()
                        }
                    &&& reported(res, statements[n - 1].failure_prefix(), asked.last().failure())
                    &&& before.is_private() && res is Ok ==> after.tables()
                        == crate::sql::apply_all(before.tables(), statements)
                }
            }
        }),
{
    let start = before.history().len() as int;
    let statements = demo_statements(version);
    assert(statements.take(4) == statements);
    let (looked, reply) = choose|looked: MaintenanceDb, reply: Result<Option<Seq<char>>, Seq<char>>|
        {
            &&& #[trigger] looked.read_version(before, reply)
            &&& if provisioned(reply) {
                res is Ok && *after == looked
            } else {
                after.seeded_by_count(&looked, version, res)
            }
        };
    if !provisioned(reply) {
        let (counted, count) = choose|counted: MaintenanceDb, count: Result<i64, Seq<char>>|
            {
                &&& #[trigger] counted.counted_services(&looked, count)
                &&& if count_in(count) > 0 {
                    res is Ok && *after == counted
                } else {
                    exists|n: nat|
                        {
                            &&& #[trigger] after.ran_first(&counted, statements, n, res)
                            &&& n > 0
                            &&& res is Ok ==> n == statements.len()
                        }
                }
            };
        let seen = counted.history();
        assert(seen.is_prefix_of(after.history()));
        assert(after.history().subrange(0, seen.len() as int) == seen);
        assert(after.history()[start] == seen[start]);
        assert(after.history()[start + 1] == seen[start + 1]);
        assert(after.history().take(start) == seen.take(start));
        if count_in(count) <= 0 {
            let n = choose|n: nat|
                {
                    &&& #[trigger] after.ran_first(&counted, statements, n, res)
                    &&& n > 0
                    &&& res is Ok ==> n == statements.len()
                };
            assert(seen.len() == start + 2);
            assert(n == after.history().len() - start - 2);
            assert forall|i: int| 0 <= i < n implies {
                &&& (#[trigger] statements[i]).asked_by(after.history()[start + 2 + i])
                &&& i < n - 1 ==> after.history()[start + 2 + i].succeeded()
            } by {
                assert(seen.len() + i == start + 2 + i);
            }
        }
    }
    assert(after.history().take(start) == before.history());
}

/// Law: what seeding asks SQLite for, wherever the database is. First it reads the version;
/// where that finds a text that is not empty, this is all. Then it counts the services;
/// where there are some, this is all. Otherwise it sets the version that was given, sets
/// the engine hours, and inserts the two demo services, in this order and each after the
/// success of the one before; it succeeds exactly where all of them do.
pub proof fn law_seed_demo(db: &mut MaintenanceDb, version: &str, res: Result<(), String>)
    requires
        call_ensures(MaintenanceDb::seed_demo, (db, version), res),
    ensures
        ({
            let start = crate::sql::asked_over(old(db).connection()).len() as int;
            let asked = crate::sql::asked_over(final(db).connection());
            &&& crate::sql::opened_path(final(db).connection()) == crate::sql::opened_path(
                old(db).connection(),
            )
            &&& asked.len() > start && asked.take(start) == crate::sql::asked_over(
                old(db).connection(),
            )
            &&& asked[start] matches Request::QueryText { sql, key, found }
            &&& sql == GET_META@ && key == "schedule_version"@
            &&& if found matches Ok(Some(set)) && set.len() > 0 {
                res is Ok && asked.len() == start + 1
            } else {
                &&& asked.len() > start + 1
                &&& asked[start + 1] matches Request::QueryCount { sql, count }
                &&& sql == COUNT_SERVICES@
                &&& if count matches Ok(n) && n > 0 {
                    res is Ok && asked.len() == start + 2
                } else {
                    &&& start + 3 <= asked.len() <= start + 6
                    &&& asked[start + 2] matches Request::Execute { sql, params, .. } && sql
                        == SET_META@ && params == seq![
                        Cell::Text("schedule_version"@),
                        Cell::Text(version@),
                    ]
                    &&& asked.len() > start + 3 ==> (asked[start + 3] matches Request::Execute {
                        sql,
                        params,
                        ..
                    } && sql == SET_META@ && params == seq![
                        Cell::Text("engine_hours"@),
                        Cell::Text("310.5"@),
                    ])
                    &&& asked.len() > start + 4 ==> inserts_demo_service(
                        asked[start + 4],
                        "engine-oil"@,
                        Some("break-in service"@),
                    )
                    &&& asked.len() > start + 5 ==> inserts_demo_service(
                        asked[start + 5],
                        "final-drive"@,
                        None,
                    )
                    &&& forall|i: int|
                        start + 2 <= i < asked.len() - 1 ==> (#[trigger] asked[i]).succeeded()
                    &&& res is Ok <==> asked.last().succeeded()
                    &&& res is Ok ==> asked.len() == start + 6
                }
            }
        }),
{
    let before = *old(db);
    let after = *final(db);
    lemma_seeded_requests(&before, &after, version@, res);
    let start = before.history().len() as int;
    let asked = after.history();
    let statements = demo_statements(version@);
    assert(statements[0] == Statement::SetMeta { key: SCHEDULE_VERSION@, value: version@ });
    assert(statements[1] == Statement::SetMeta { key: ENGINE_HOURS@, value: "310.5"@ });
    assert(statements[2] == Statement::InsertService(
        demo_row("engine-oil"@, Some("break-in service"@)),
    ));
    assert(statements[3] == Statement::InsertService(demo_row("final-drive"@, None)));
    assert forall|i: int| start + 2 <= i < asked.len() - 1 && asked.len() > start + 2 implies (
    #[trigger] asked[i]).succeeded() by {
        assert(statements[i - start - 2].asked_by(asked[start + 2 + (i - start - 2)]));
    }
}

/// Law: seeding a private database that has no services and no version, or an empty one,
/// leaves it with the version that was given, the engine hours and the two demo services,
/// and with its other entries and its errors as they were, provided that SQLite does what
/// it is asked for.
pub proof fn law_seeded_store(db: &mut MaintenanceDb, version: &str, res: Result<(), String>)
    requires
        call_ensures(MaintenanceDb::seed_demo, (db, version), res),
        crate::sql::is_private(old(db).connection()),
        crate::sql::service_log(old(db).connection()).len() == 0,
        crate::sql::meta_table(old(db).connection()).contains_key("schedule_version"@)
            ==> crate::sql::meta_table(old(db).connection())["schedule_version"@].len() == 0,
        forall|i: int|
            crate::sql::asked_over(old(db).connection()).len() <= i < crate::sql::asked_over(
                final(db).connection(),
            ).len() ==> (#[trigger] crate::sql::asked_over(final(db).connection())[i]).succeeded(),
    ensures
        res is Ok,
        crate::sql::meta_table(final(db).connection()) == crate::sql::meta_table(
            old(db).connection(),
        ).insert("schedule_version"@, version@).insert("engine_hours"@, "310.5"@),
        crate::sql::error_log(final(db).connection()) == crate::sql::error_log(
            old(db).connection(),
        ),
        ({
            let log = crate::sql::service_log(final(db).connection());
            &&& log.len() == 2
            &&& log[0].item_id == "engine-oil"@ && log[0].note == Some("break-in service"@)
            &&& log[1].item_id == "final-drive"@ && log[1].note is None
            &&& forall|i: int|
                0 <= i < 2 ==> {
                    &&& (#[trigger] log[i]).performed_at == "2025-09-01T09:00:00.000Z"@
                    &&& log[i].odometer_km == crate::sql::whole_real(6000)
                    &&& log[i].engine_hours == Some(crate::sql::whole_real(150))
                }
        }),
{
    let before = *old(db);
    let after = *final(db);
    lemma_seeded_requests(&before, &after, version@, res);
    let start = before.history().len() as int;
    let asked = after.history();
    assert(asked[start].succeeded());
    assert(asked[start + 1].succeeded());
    assert(asked[asked.len() - 1].succeeded());
    let statements = demo_statements(version@);
    reveal_with_fuel(crate::sql::apply_all, 5);
    assert(statements.drop_last().last() == statements[2]);
    assert(statements.drop_last().drop_last().last() == statements[1]);
    assert(statements.drop_last().drop_last().drop_last().last() == statements[0]);
    assert(before.tables().meta == crate::sql::meta_table(before.connection()));
    assert(after.tables().meta == crate::sql::meta_table(after.connection()));
    assert(before.tables().services == crate::sql::service_log(before.connection()));
    assert(after.tables().services == crate::sql::service_log(after.connection()));
    assert(before.tables().errors == crate::sql::error_log(before.connection()));
    assert(after.tables().errors == crate::sql::error_log(after.connection()));
}

/// Law: seeding a private database once more, with whatever version, succeeds and changes
/// nothing, provided that SQLite does what it is asked for.
pub proof fn law_seeding_twice(
    db: &mut MaintenanceDb,
    version: &str,
    seeded: &mut MaintenanceDb,
    second_version: &str,
    res: Result<(), String>,
)
    requires
        call_ensures(MaintenanceDb::seed_demo, (db, version), Ok::<(), String>(())),
        crate::sql::is_private(old(db).connection()),
        *old(seeded) == *final(db),
        call_ensures(MaintenanceDb::seed_demo, (seeded, second_version), res),
        forall|i: int|
            crate::sql::asked_over(old(seeded).connection()).len() <= i < crate::sql::asked_over(
                final(seeded).connection(),
            ).len() ==> (#[trigger] crate::sql::asked_over(
                final(seeded).connection(),
            )[i]).succeeded(),
    ensures
        res is Ok,
        crate::sql::meta_table(final(seeded).connection()) == crate::sql::meta_table(
            old(seeded).connection(),
        ),
        crate::sql::service_log(final(seeded).connection()) == crate::sql::service_log(
            old(seeded).connection(),
        ),
        crate::sql::error_log(final(seeded).connection()) == crate::sql::error_log(
            old(seeded).connection(),
        ),
{
    let once = *old(seeded);
    let twice = *final(seeded);
    law_seeding_is_idempotent(*old(db), once, twice, version@, second_version@, res);
    assert(twice.tables().meta == once.tables().meta);
    assert(twice.tables().services == once.tables().services);
    assert(twice.tables().errors == once.tables().errors);
}

/// Law: a service that was recorded in a private database is one more than were counted
/// before, provided that SQLite answers both counts.
pub proof fn law_recorded_service_is_counted(
    fresh: &mut MaintenanceDb,
    earlier: i64,
    db: &mut MaintenanceDb,
    entry: &MaintenanceLogEntry<rusqlite::types::Value>,
    recorded: &mut MaintenanceDb,
    later: i64,
)
    requires
        crate::sql::is_private(old(fresh).connection()),
        call_ensures(MaintenanceDb::maintenance_count, (fresh,), earlier),
        *old(db) == *final(fresh),
        call_ensures(MaintenanceDb::record_service, (db, entry), Ok::<(), String>(())),
        *old(recorded) == *final(db),
        call_ensures(MaintenanceDb::maintenance_count, (recorded,), later),
        crate::sql::asked_over(final(fresh).connection()).last().succeeded(),
        crate::sql::asked_over(final(recorded).connection()).last().succeeded(),
    ensures
        later == earlier + 1,
{
    law_maintenance_count(fresh, earlier);
    law_record_service(db, entry, Ok(()));
    law_service_is_recorded(db, entry, Ok(()));
    law_maintenance_count(recorded, later);
    assert(crate::sql::tables_of(final(fresh).connection()).services == crate::sql::service_log(
        final(fresh).connection(),
    ));
    assert(crate::sql::tables_of(old(fresh).connection()).services == crate::sql::service_log(
        old(fresh).connection(),
    ));
}

/// Law: the schedule version that was set in a private database is the one that is then
/// reported, provided that SQLite answers.
pub proof fn law_set_version_is_reported(
    db: &mut MaintenanceDb,
    version: &str,
    set: &mut MaintenanceDb,
    res: String,
)
    requires
        crate::sql::is_private(old(db).connection()),
        call_ensures(MaintenanceDb::set_schedule_version, (db, version), Ok::<(), String>(())),
        *old(set) == *final(db),
        call_ensures(MaintenanceDb::schedule_version, (set,), res),
        crate::sql::asked_over(final(set).connection()).last().succeeded(),
    ensures
        res@ == version@,
{
    law_version_is_set(db, version, Ok(()));
    law_schedule_version(set, res);
    assert(final(db).is_private());
}

} // verus!
