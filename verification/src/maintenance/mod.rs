//! Maintenance domain types shared by the bike (source of truth for its log and
//! its schedule version) and the shop tool (which audits the bike against the
//! prescribed schedule).
//!
//! Pure data: `N` is the type of odometer readings and engine hours, which nothing
//! here computes with.

pub mod log;
pub mod report;
pub mod schedule;

pub use log::MaintenanceLogEntry;
pub use report::MaintenanceReport;
pub use schedule::{MaintenanceInterval, MaintenanceItem, MaintenanceSchedule};
