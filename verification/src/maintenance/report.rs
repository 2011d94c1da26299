//! The bike's account of its own maintenance.

use vstd::prelude::*;

use super::log::MaintenanceLogEntry;

verus! {

/// Schedule version, current usage counters and the maintenance log: all that a
/// shop tool needs for a complete audit.
#[derive(Debug, Clone, PartialEq)]
pub struct MaintenanceReport<N> {
    /// Version of the schedule that the bike is provisioned with.
    pub schedule_version: String,
    /// Current odometer reading, in kilometres.
    pub odometer_km: N,
    /// Current engine hours, where the bike tracks them.
    pub engine_hours: Option<N>,
    /// Every service that the bike has recorded.
    pub logs: Vec<MaintenanceLogEntry<N>>,
}

} // verus!
