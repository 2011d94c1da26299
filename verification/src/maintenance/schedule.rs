//! The prescribed maintenance schedule of a model.
//!
//! The schedule is data, not code: it is authored and distributed elsewhere and
//! changes over time. Its `version` is the identity that a shop tool compares
//! against the version that a bike reports.

use vstd::prelude::*;

use crate::text::same_text;

verus! {

/// A complete prescribed maintenance schedule for one vehicle model.
#[derive(Debug, Clone, PartialEq)]
pub struct MaintenanceSchedule<N> {
    /// Opaque schedule identity, such as `2026.1`. Equal texts mean equal schedules.
    pub version: String,
    /// Vehicle model that the schedule applies to.
    pub model: String,
    /// RFC 3339 timestamp at which the schedule was published.
    pub published: String,
    /// The service items, each with the interval at which it comes due.
    pub items: Vec<MaintenanceItem<N>>,
}

/// One prescribed service item.
#[derive(Debug, Clone, PartialEq)]
pub struct MaintenanceItem<N> {
    /// Stable identifier, used to correlate against maintenance-log entries.
    pub id: String,
    /// Human-readable name.
    pub name: String,
    /// When the item comes due: at whichever bound is reached first.
    pub interval: MaintenanceInterval<N>,
}

/// The recurrence of a service item. Every bound is optional; an item without
/// bounds is informational only and never comes due.
#[derive(Debug, Clone, PartialEq)]
pub struct MaintenanceInterval<N> {
    /// Distance between services, in kilometres.
    pub every_km: Option<N>,
    /// Calendar time between services, in days.
    pub every_days: Option<u32>,
    /// Engine run-time between services, in hours.
    pub every_engine_hours: Option<N>,
}

impl<N> MaintenanceSchedule<N> {
    /// Looks up a service item by its id: the first one that has it.
    pub fn item(&self, id: &str) -> (res: Option<&MaintenanceItem<N>>)
        ensures
            match res {
                Some(item) => exists|i: int|
                    {
                        &&& 0 <= i < self.items@.len()
                        &&& #[trigger] self.items@[i] == *item
                        &&& item.id@ == id@
                        &&& forall|j: int| 0 <= j < i ==> (#[trigger] self.items@[j]).id@ != id@
                    },
                None => forall|i: int|
                    0 <= i < self.items@.len() ==> (#[trigger] self.items@[i]).id@ != id@,
            },
    {
        for i in 0..self.items.len()
            invariant
                forall|j: int| 0 <= j < i ==> (#[trigger] self.items@[j]).id@ != id@,
        {
            if same_text(self.items[i].id.as_str(), id) {
                return Some(&self.items[i]);
            }
        }
        None
    }
}

impl<N> MaintenanceInterval<N> {
    /// True when no recurrence bound is set (informational-only item).
    pub fn is_informational(&self) -> (res: bool)
        ensures
            res == (self.every_km is None && self.every_days is None && self.every_engine_hours
                is None),
    {
        self.every_km.is_none() && self.every_days.is_none() && self.every_engine_hours.is_none()
    }
}

impl<N> Default for MaintenanceInterval<N> {
    /// An interval without bounds.
    fn default() -> (res: MaintenanceInterval<N>)
        ensures
            res.every_km is None,
            res.every_days is None,
            res.every_engine_hours is None,
    {
        MaintenanceInterval { every_km: None, every_days: None, every_engine_hours: None }
    }
}

/// Law: a lookup gives the first item with the id, and none exactly where no item has it.
pub proof fn law_item<N>(
    schedule: &MaintenanceSchedule<N>,
    id: &str,
    res: Option<&MaintenanceItem<N>>,
    i: int,
)
    requires
        call_ensures(MaintenanceSchedule::<N>::item, (schedule, id), res),
        0 <= i < schedule.items@.len(),
        forall|j: int| 0 <= j < i ==> (#[trigger] schedule.items@[j]).id@ != id@,
    ensures
        schedule.items@[i].id@ == id@ ==> res == Some(&schedule.items@[i]),
        res is None ==> schedule.items@[i].id@ != id@,
        res matches Some(item) ==> item.id@ == id@ && schedule.items@.contains(*item),
{
    if let Some(item) = res {
        let k = choose|k: int|
            {
                &&& 0 <= k < schedule.items@.len()
                &&& #[trigger] schedule.items@[k] == *item
                &&& item.id@ == id@
                &&& forall|j: int| 0 <= j < k ==> (#[trigger] schedule.items@[j]).id@ != id@
            };
        assert(schedule.items@[k] == *item);
        if schedule.items@[i].id@ == id@ {
            assert(k == i) by {
                if k < i {
                    assert(schedule.items@[k].id@ != id@);
                }
            }
        }
    }
}

/// Law: an item is informational exactly where none of the three bounds is set.
pub proof fn law_is_informational<N>(interval: &MaintenanceInterval<N>, res: bool)
    requires
        call_ensures(MaintenanceInterval::<N>::is_informational, (interval,), res),
    ensures
        interval.every_km is Some ==> !res,
        interval.every_days is Some ==> !res,
        interval.every_engine_hours is Some ==> !res,
        interval.every_km is None && interval.every_days is None && interval.every_engine_hours
            is None ==> res,
{
}

/// Law: an interval without more said has no bounds, and so is informational.
pub proof fn law_default<N>(interval: MaintenanceInterval<N>, res: bool)
    requires
        call_ensures(<MaintenanceInterval<N> as Default>::default, (), interval),
        call_ensures(MaintenanceInterval::<N>::is_informational, (&interval,), res),
    ensures
        res,
{
}

} // verus!
