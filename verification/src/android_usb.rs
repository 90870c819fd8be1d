//! An RNode behind the USB port of an Android device.
pub mod config;
pub mod driver;
pub mod opening;
pub mod session;
pub mod stop;
