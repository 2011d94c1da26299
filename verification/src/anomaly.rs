//! Anomaly transitions, as far as the error history records them.

use vstd::prelude::*;

verus! {

/// Which way an anomaly went.
#[derive(Debug, Clone, Copy, PartialEq, Eq, Structural)]
pub enum Edge {
    Raised,
    Cleared,
}

impl Edge {
    /// The word that the error history holds for the transition.
    pub open spec fn word(self) -> Seq<char> {
        match self {
            Edge::Raised => "raised"@,
            Edge::Cleared => "cleared"@,
        }
    }

    /// The word that the error history holds for the transition.
    pub fn label(self) -> (res: &'static str)
        ensures
            res@ == self.word(),
    {
        match self {
            Edge::Raised => "raised",
            Edge::Cleared => "cleared",
        }
    }
}

/// A transition of one anomaly.
#[derive(Debug, Clone, PartialEq)]
pub struct AnomalyEvent {
    /// Stable identifier of the anomaly.
    pub id: String,
    /// The label of its severity, such as `CRITICAL`.
    pub severity: String,
    pub edge: Edge,
    /// When it happened, in milliseconds since the Unix epoch.
    pub ts_ms: i64,
    /// What to tell the rider.
    pub message: String,
    /// Path of the signal that it was detected on.
    pub vss: String,
}

/// Law: a raised anomaly is recorded as `raised`, and a cleared one as `cleared`.
pub proof fn law_label(edge: Edge, res: &'static str)
    requires
        call_ensures(Edge::label, (edge,), res),
    ensures
        edge is Raised ==> res@ == "raised"@,
        edge is Cleared ==> res@ == "cleared"@,
{
}

} // verus!
