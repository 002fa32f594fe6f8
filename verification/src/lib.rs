//! Sensor and connectivity logic of the SmartPot plant monitor.

pub mod checked;
pub mod drivers;
pub mod events;
pub mod i2c_scanner;
pub mod tasks;
