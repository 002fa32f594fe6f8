pub mod command;
pub mod mqtt;
pub mod sensors;
pub mod wifi;
