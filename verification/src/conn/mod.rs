//! The device's control surfaces: the BLE services, the HTTP update endpoint
//! and the text command interpreter behind the serial-over-BLE channel.

pub mod ble;
pub mod http;
pub mod serial;
pub mod remote_log;
