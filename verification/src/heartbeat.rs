//! The heartbeat, a square wave without which the boards neither detect pans
//! nor deliver power.

use vstd::prelude::*;

verus! {

/// The frequency of the heartbeat.
pub const FREQUENCY_HZ: u32 = 26;

/// The share of time, in percent, during which the heartbeat line is high.
pub open spec fn spec_duty_pct(enabled: bool) -> u8 {
    if enabled {
        25
    } else {
        0
    }
}

pub fn duty_pct(enabled: bool) -> (r: u8)
    ensures
        r == spec_duty_pct(enabled),
{
    if enabled {
        25
    } else {
        0
    }
}

} // verus!
