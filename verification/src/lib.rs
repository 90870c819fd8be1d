//! Reticulum network interfaces whose protocol logic is verified: RNode radios
//! over Bluetooth LE and Android USB, and the Backbone TCP interface.
pub mod text;
pub mod kiss;
pub mod interface;
pub mod rnode;
pub mod rnode_protocol;
pub mod payload;
pub mod backbone;
pub mod ble_rnode;
pub mod android_usb;
pub mod android_usb_lifecycle;
