//! The append-only audit trail: one ownership event is recorded every
//! time a unit is registered or moves custody, and none is ever edited
//! or removed.

use vstd::prelude::*;

verus! {

/// Lifecycle stage a unit reaches with an ownership event.
#[derive(Clone, Copy, Debug, PartialEq, Eq, Structural)]
pub enum VacStatus {
    Manufactured,
    Shipped,
    Received,
    Usable,
    Used,
}

/// One immutable ownership-change record.
#[derive(Clone, Copy, Debug, PartialEq, Eq, Structural)]
pub struct MovingInfo {
    pub vac_id: u64,
    pub from: Option<u64>,
    pub to: Option<u64>,
    pub time: u64,
    pub status: VacStatus,
}

impl MovingInfo {
    /// Builds one record.  The timestamp is supplied by the host, which
    /// owns the clock.
    pub fn new(vac_id: u64, from: Option<u64>, to: Option<u64>, status: VacStatus, time: u64) -> (r:
        Self)
        ensures
            r == (MovingInfo { vac_id, from, to, time, status }),
    {
        MovingInfo { vac_id, from, to, time, status }
    }
}

/// The trail of one unit: the events that mention it, oldest first.
pub open spec fn events_of(trail: Seq<MovingInfo>, vac_id: u64) -> Seq<MovingInfo> {
    trail.filter(|m: MovingInfo| m.vac_id == vac_id)
}

} // verus!
