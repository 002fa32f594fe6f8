//! Settings of the sensor tasks.

use vstd::prelude::*;

verus! {

/// Bus address of the BME280 sensors (SDO tied low).
pub const BME280_ADDRESS: u8 = 0x76;
/// Multiplexer channels the sequential task reads a BME280 on, in order.
pub const BME280_CHANNEL_A: u8 = 2;
pub const BME280_CHANNEL_B: u8 = 3;
pub const BME280_CHANNEL_C: u8 = 4;
/// Period of the sensor tasks, in seconds.
pub const SENSOR_PERIOD_SECS: u64 = 2;

} // verus!
