use rusqlite::types::Value;
use rusqlite::Connection;
use sigma_racer::anomaly::{AnomalyEvent, Edge};
use sigma_racer::clock::timestamp;
use sigma_racer::db::{
    finish_snapshot, provisioned_by, snapshot_file_name, version_from, MaintenanceDb,
};
use sigma_racer::maintenance::MaintenanceLogEntry;
use sigma_racer::sql::vacuum_statement;

fn mem_db() -> MaintenanceDb {
    MaintenanceDb::open(":memory:").expect("open in-memory db")
}

#[test]
fn seed_is_idempotent() {
    let mut db = mem_db();
    db.seed_demo("2026.1").unwrap();
    assert_eq!(db.schedule_version(), "2026.1");
    assert_eq!(db.maintenance_count(), 2);
    db.seed_demo("2026.1").unwrap();
    assert_eq!(db.maintenance_count(), 2);
}

fn overheat() -> AnomalyEvent {
    AnomalyEvent {
        id: "coolant_overheat".into(),
        severity: "CRITICAL".into(),
        edge: Edge::Raised,
        ts_ms: 1_700_000_000_000,
        message: "Coolant 118 °C".into(),
        vss: "Vehicle.OBD.CoolantTemperature".into(),
    }
}

#[test]
fn records_error_history() {
    let mut db = mem_db();
    let ev = overheat();
    db.record_error(&ev, &Value::Real(12_345.0)).unwrap();
    let rows = db.recent_errors(10).unwrap();
    assert_eq!(rows.len(), 1);
    assert_eq!(rows[0].event, "coolant_overheat");
    assert_eq!(rows[0].edge, "raised");
    assert_eq!(rows[0].severity.as_deref(), Some("CRITICAL"));
    assert_eq!(rows[0].odometer_km, Some(Value::Real(12_345.0)));
}

#[test]
fn error_rows_carry_the_whole_event() {
    let mut db = mem_db();
    db.record_error(&overheat(), &Value::Real(0.5)).unwrap();
    let rows = db.recent_errors(1).unwrap();
    assert_eq!(rows[0].ts, "2023-11-14T22:13:20.000Z");
    assert_eq!(rows[0].vss.as_deref(), Some("Vehicle.OBD.CoolantTemperature"));
    assert_eq!(rows[0].message, "Coolant 118 °C");
}

#[test]
fn newest_errors_come_first() {
    let mut db = mem_db();
    for km in 0..5 {
        let edge = if km % 2 == 0 { Edge::Raised } else { Edge::Cleared };
        let ev = AnomalyEvent { id: format!("e{km}"), edge, ..overheat() };
        db.record_error_at("same time", &ev, &Value::Real(km as f64)).unwrap();
    }
    let ids = |db: &mut MaintenanceDb, limit| {
        db.recent_errors(limit).unwrap().into_iter().map(|e| e.event).collect::<Vec<_>>()
    };
    assert_eq!(ids(&mut db, 3), ["e4", "e3", "e2"]);
    assert_eq!(ids(&mut db, 5), ["e4", "e3", "e2", "e1", "e0"]);
    assert_eq!(ids(&mut db, u32::MAX).len(), 5);
    assert!(ids(&mut db, 0).is_empty());
    assert_eq!(db.recent_errors(2).unwrap()[1].edge, "cleared");
}

#[test]
fn a_reading_that_is_no_number_is_read_back_as_none() {
    let mut db = mem_db();
    db.record_error(&overheat(), &Value::Real(f64::NAN)).unwrap();
    assert_eq!(db.recent_errors(1).unwrap()[0].odometer_km, None);
}

#[test]
fn timestamps_are_rfc_3339() {
    assert_eq!(timestamp(0), "1970-01-01T00:00:00.000Z");
    assert_eq!(timestamp(-1), "1969-12-31T23:59:59.999Z");
    assert_eq!(timestamp(253_402_300_799_999), "9999-12-31T23:59:59.999Z");
    assert_eq!(timestamp(-62_167_219_200_000), "0000-01-01T00:00:00.000Z");
    // Out of range: the current time.
    assert!(timestamp(i64::MAX).starts_with("20"));
}

#[test]
fn timestamps_order_as_their_instants_do() {
    let instants = [
        -62_167_219_200_000,
        -62_135_596_800_001,
        -1,
        0,
        951_782_399_999,
        951_782_400_000,
        1_709_251_199_999,
        1_709_251_200_000,
        1_735_689_599_999,
        1_735_689_600_000,
        253_402_300_799_999,
    ];
    for pair in instants.windows(2) {
        assert!(timestamp(pair[0]) < timestamp(pair[1]), "{pair:?}");
    }
    assert_eq!(timestamp(951_782_400_000), "2000-02-29T00:00:00.000Z");
    assert_eq!(timestamp(1_709_251_199_999), "2024-02-29T23:59:59.999Z");
    assert!(instants.iter().all(|t| timestamp(*t).len() == 24));
}

fn service(item_id: &str, odometer_km: Value) -> MaintenanceLogEntry<Value> {
    MaintenanceLogEntry {
        item_id: item_id.to_string(),
        performed_at: "2025-09-01T09:00:00.000Z".to_string(),
        odometer_km,
        engine_hours: None,
        note: None,
    }
}

#[test]
fn services_are_counted() {
    let mut db = mem_db();
    assert_eq!(db.maintenance_count(), 0);
    db.record_service(&service("chain", Value::Real(1.0))).unwrap();
    assert_eq!(db.maintenance_count(), 1);
    let words = db.record_service(&service("chain", Value::Null)).unwrap_err();
    assert!(words.starts_with("record service: "), "{words}");
    assert_eq!(db.maintenance_count(), 1);
}

#[test]
fn an_empty_store_shows_nothing() {
    let mut db = mem_db();
    assert_eq!(db.maintenance_count(), 0);
    assert_eq!(db.schedule_version(), "");
    assert!(!db.is_provisioned());
    assert_eq!(db.recent_errors(10), Ok(Vec::new()));
}

#[test]
fn equal_services_are_separate_rows() {
    let mut db = mem_db();
    let entry = service("it's a \"chain\"", Value::Real(1.0));
    db.record_service(&entry).unwrap();
    db.record_service(&entry).unwrap();
    assert_eq!(db.maintenance_count(), 2);
}

#[test]
fn a_bike_with_a_log_is_not_seeded() {
    let mut db = mem_db();
    db.record_service(&service("chain", Value::Real(1.0))).unwrap();
    db.seed_demo("2026.1").unwrap();
    assert_eq!(db.maintenance_count(), 1);
    assert!(!db.is_provisioned());
}

#[test]
fn seeding_without_a_version_still_happens_once() {
    let mut db = mem_db();
    db.seed_demo("").unwrap();
    db.seed_demo("2026.1").unwrap();
    assert_eq!(db.maintenance_count(), 2);
    assert_eq!(db.schedule_version(), "");
}

#[test]
fn the_schedule_version_is_what_was_set() {
    let mut db = mem_db();
    assert!(!db.is_provisioned());
    assert_eq!(db.schedule_version(), "");
    db.set_schedule_version("2026.1").unwrap();
    assert!(db.is_provisioned());
    db.set_odometer("12345").unwrap();
    db.set_schedule_version("2026.2").unwrap();
    assert_eq!(db.schedule_version(), "2026.2");
    db.set_schedule_version("").unwrap();
    assert!(!db.is_provisioned());
}

#[test]
fn replies_to_a_version_read() {
    let found = |text: &str| Ok(Some(text.to_string()));
    assert!(provisioned_by(found("2026.1")));
    assert!(!provisioned_by(found("")));
    assert!(!provisioned_by(Ok(None)));
    assert!(!provisioned_by(Err("locked".to_string())));
    assert_eq!(version_from(found("2026.1")), "2026.1");
    assert_eq!(version_from(Ok(None)), "");
    assert_eq!(version_from(Err("locked".to_string())), "");
}

#[test]
fn a_path_that_cannot_be_opened_is_named() {
    let words = MaintenanceDb::open("/no/such/directory/x.db").err().unwrap();
    assert!(words.starts_with("open db /no/such/directory/x.db: "), "{words}");
}

#[test]
fn the_schema_is_applied_to_an_opened_connection() {
    let conn = Connection::open_in_memory().unwrap();
    let mut db = MaintenanceDb::from_connection("x.db", Ok(conn)).ok().unwrap();
    db.apply_schema().unwrap();
    assert_eq!(db.maintenance_count(), 0);
    assert_eq!(
        MaintenanceDb::from_connection("x.db", Err("no disk".to_string())).err().unwrap(),
        "open db x.db: no disk"
    );
}

#[test]
fn a_database_that_refuses_the_schema_fails_to_open() {
    let conn = Connection::open_in_memory().unwrap();
    conn.execute_batch("PRAGMA query_only = ON").unwrap();
    let words = MaintenanceDb::from_connection("x.db", Ok(conn)).err().unwrap();
    assert!(words.starts_with("db schema: "), "{words}");
}

#[test]
fn a_database_that_answers_nothing_counts_as_empty() {
    let path = "file:broken bike?mode=memory&cache=shared";
    let other = Connection::open(path).unwrap();
    let mut db = MaintenanceDb::open(path).unwrap();
    other.execute_batch("DROP TABLE meta; DROP TABLE maintenance_log").unwrap();
    assert!(!db.is_provisioned());
    assert_eq!(db.schedule_version(), "");
    assert_eq!(db.maintenance_count(), 0);
    let words = db.set_odometer("1").unwrap_err();
    assert!(words.starts_with("meta set odometer_km: "), "{words}");
    let words = db.seed_demo("2026.1").unwrap_err();
    assert!(words.starts_with("meta set schedule_version: "), "{words}");
}

#[test]
fn a_snapshot_holds_what_the_database_holds() {
    // The quote in the name has to be escaped in the statement.
    let target = "file:bike's snapshot?mode=memory&cache=shared";
    let copy = Connection::open(target).unwrap();
    let mut db = mem_db();
    db.seed_demo("2026.1").unwrap();
    db.set_odometer("12345").unwrap();
    db.snapshot_into(target).unwrap();
    let services: i64 = copy
        .query_row("SELECT COUNT(*) FROM maintenance_log WHERE odometer_km = 6000.0", [], |r| {
            r.get(0)
        })
        .unwrap();
    assert_eq!(services, 2);
    let meta = |key: &str| -> String {
        copy.query_row("SELECT value FROM meta WHERE key = ?1", [key], |r| r.get(0)).unwrap()
    };
    assert_eq!(meta("odometer_km"), "12345");
    assert_eq!(meta("engine_hours"), "310.5");
    assert_eq!(meta("schedule_version"), "2026.1");
    let oil: (f64, String) = copy
        .query_row(
            "SELECT engine_hours, note FROM maintenance_log WHERE item_id = 'engine-oil'",
            [],
            |r| Ok((r.get(0)?, r.get(1)?)),
        )
        .unwrap();
    assert_eq!(oil, (150.0, "break-in service".to_string()));
}

#[test]
fn a_shared_database_is_seen_by_every_connection() {
    let path = "file:shared bike?mode=memory&cache=shared";
    let mut one = MaintenanceDb::open(path).unwrap();
    let mut other = MaintenanceDb::open(path).unwrap();
    one.set_schedule_version("2026.1").unwrap();
    assert_eq!(other.schedule_version(), "2026.1");
    other.seed_demo("2026.2").unwrap();
    assert_eq!(one.maintenance_count(), 0);
}

#[test]
fn a_snapshot_into_nowhere_fails() {
    let words = mem_db().snapshot_into("/no/such/directory/x.db").unwrap_err();
    assert!(words.starts_with("snapshot: "), "{words}");
}

#[test]
fn snapshot_statements_escape_quotes() {
    assert_eq!(vacuum_statement("/tmp/a.db"), "VACUUM INTO '/tmp/a.db'");
    assert_eq!(vacuum_statement("o'b''"), "VACUUM INTO 'o''b'''''");
}

#[test]
fn snapshot_files_are_named_by_process() {
    assert_eq!(snapshot_file_name(4711), "wingman-snapshot-4711.db");
    assert_eq!(finish_snapshot(Ok(vec![7])), Ok(vec![7]));
    assert_eq!(
        finish_snapshot(Err("gone".to_string())),
        Err("read snapshot: gone".to_string())
    );
}
