//! RNode over BLE by way of the Nordic UART Service: the serial command set,
//! tunnelled through GATT notifications and writes.
pub mod active;
pub mod config;
pub mod connect;
pub mod driver;
pub mod generation;
pub mod pairing;
pub mod preflight;
pub mod retry;
pub mod startup;
pub mod target;
