//! Battery readings.

use vstd::prelude::*;

verus! {

/// The state of one battery.
#[derive(Clone, Copy, Debug, PartialEq, Eq)]
pub struct BatteryHarvest {
    pub charge_percent: u64,
    pub secs_until_full: Option<i64>,
    pub secs_until_empty: Option<i64>,
    pub power_consumption_rate_milliwatts: u64,
    pub health_percent: u64,
}

} // verus!
