use sigma_racer::maintenance::{
    MaintenanceInterval, MaintenanceItem, MaintenanceLogEntry, MaintenanceReport,
    MaintenanceSchedule,
};

fn item(id: &str, name: &str) -> MaintenanceItem<f64> {
    MaintenanceItem {
        id: id.to_string(),
        name: name.to_string(),
        interval: MaintenanceInterval { every_km: Some(6_000.0), ..MaintenanceInterval::default() },
    }
}

fn schedule(items: Vec<MaintenanceItem<f64>>) -> MaintenanceSchedule<f64> {
    MaintenanceSchedule {
        version: "2026.1".to_string(),
        model: "sigma-racer".to_string(),
        published: String::new(),
        items,
    }
}

#[test]
fn finds_the_first_item_with_an_id() {
    let s = schedule(vec![item("a", "first"), item("b", "second"), item("b", "third")]);
    assert_eq!(s.item("b").map(|i| i.name.as_str()), Some("second"));
    assert_eq!(s.item("a"), Some(&s.items[0]));
    assert_eq!(s.item("c"), None);
    assert_eq!(schedule(vec![]).item("a"), None);
}

#[test]
fn an_interval_without_bounds_is_informational() {
    let none = MaintenanceInterval::<f64>::default();
    assert!(none.is_informational());
    assert!(!MaintenanceInterval { every_km: Some(1.0), ..none.clone() }.is_informational());
    assert!(!MaintenanceInterval { every_days: Some(30), ..none.clone() }.is_informational());
    assert!(!MaintenanceInterval { every_engine_hours: Some(0.5), ..none }.is_informational());
}

#[test]
fn a_report_carries_the_whole_log() {
    let entry = MaintenanceLogEntry {
        item_id: "engine-oil".to_string(),
        performed_at: "2025-09-01T09:00:00.000Z".to_string(),
        odometer_km: 6_000.0,
        engine_hours: None,
        note: None,
    };
    let report = MaintenanceReport {
        schedule_version: "2026.1".to_string(),
        odometer_km: 6_100.5,
        engine_hours: Some(150.0),
        logs: vec![entry.clone()],
    };
    assert_eq!(report.logs, vec![entry]);
    assert_eq!(report.clone(), report);
}
