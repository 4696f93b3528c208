//! Pan detection and the readings of a burner.

use vstd::prelude::*;

use crate::time::Instant;

verus! {

/// Whether a pan stands on a burner.
#[derive(Clone, Copy, PartialEq, Eq, Debug, Structural)]
pub enum Pan {
    /// The pan has been present since this time.
    Present(Instant),
    /// The pan is absent.
    Absent,
}

impl Pan {
    /// The state after a report on the burner: a pan that stays keeps the time
    /// at which it was first seen.
    pub open spec fn updated(self, detected: bool, now: Instant) -> Pan {
        if !detected {
            Pan::Absent
        } else if self is Present {
            self
        } else {
            Pan::Present(now)
        }
    }

    pub fn update(&mut self, detected: bool, now: Instant)
        ensures
            *final(self) == old(self).updated(detected, now),
    {
        *self = match (*self, detected) {
            (Pan::Present(t), true) => Pan::Present(t),
            (Pan::Absent, true) => Pan::Present(now),
            (_, false) => Pan::Absent,
        };
    }
}

/// The pans of all burners.
#[derive(Clone, Copy, PartialEq, Eq, Debug, Structural)]
pub struct PanState {
    pub left: Pan,
    pub middle: Pan,
    pub right: Pan,
}

impl PanState {
    /// No pan on any burner.
    pub open spec fn spec_absent() -> PanState {
        PanState { left: Pan::Absent, middle: Pan::Absent, right: Pan::Absent }
    }

    pub fn absent() -> (r: PanState)
        ensures
            r == PanState::spec_absent(),
    {
        PanState { left: Pan::Absent, middle: Pan::Absent, right: Pan::Absent }
    }
}

impl Default for PanState {
    fn default() -> (r: PanState)
        ensures
            r == PanState::spec_absent(),
    {
        PanState::absent()
    }
}

/// The readings of one burner.
#[derive(Clone, Copy, PartialEq, Eq, Debug, Default)]
pub struct BurnerStatus {
    /// PCB / ambient temperature in degrees Celsius.
    pub pcb: u8,
    /// Cooking surface temperature in degrees Celsius.
    pub surface: u8,
    /// Register of unknown meaning, byte 1 = 0x03.
    pub reg_x3: [u8; 4],
    /// Register of unknown meaning, byte 1 = 0x05.
    pub reg_x5: u8,
}

/// A pan that is reported again and again stays present since the first
/// report, and a report of no pan forgets it.
pub proof fn pan_keeps_first_sighting(pan: Pan, first: Instant, later: Instant)
    ensures
        pan.updated(true, first) is Present,
        pan.updated(true, first).updated(true, later) == pan.updated(true, first),
        pan.updated(true, first).updated(false, later) == Pan::Absent,
        Pan::Absent.updated(true, first) == Pan::Present(first),
{
}

/// After a report a pan is present if and only if it was detected. If it was
/// there before, the time since when it is there stays; otherwise that is the
/// time of the report.
pub proof fn pan_follows_report(before: Pan, detected: bool, now: Instant)
    ensures
        before.updated(detected, now) is Present <==> detected,
        detected && before is Present ==> before.updated(detected, now) == before,
        detected && before is Absent ==> before.updated(detected, now)->Present_0 == now,
{
}

/// Where no pans are known, no burner has one.
pub proof fn absent_has_no_pan()
    ensures
        PanState::spec_absent().left is Absent,
        PanState::spec_absent().middle is Absent,
        PanState::spec_absent().right is Absent,
{
}

} // verus!
