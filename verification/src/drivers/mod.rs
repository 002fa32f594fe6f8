pub mod bme280;
pub mod bme280_formulas;
pub mod tca9548a;
