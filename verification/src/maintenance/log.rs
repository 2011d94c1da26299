//! Maintenance-log entries: the record of services actually performed on a bike.

use vstd::prelude::*;

verus! {

/// A single completed service, correlated to a schedule item by `item_id`.
#[derive(Debug, Clone, PartialEq)]
pub struct MaintenanceLogEntry<N> {
    /// The id of the schedule item that this service satisfies.
    pub item_id: String,
    /// RFC 3339 timestamp at which the service was performed.
    pub performed_at: String,
    /// Odometer reading, in kilometres, at the time of service.
    pub odometer_km: N,
    /// Engine hours at the time of service, where the bike tracks them.
    pub engine_hours: Option<N>,
    /// Free-text note (who, where, parts).
    pub note: Option<String>,
}

} // verus!
