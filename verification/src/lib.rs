//! Command dispatch and firmware-update core of a BLE-controlled motor wand.
//!
//! Every input source of the device (buttons, the two BLE services, the HTTP
//! update endpoint) ends in one of the pure decision functions of this crate;
//! the callers around it only move bytes and drive the peripherals.

pub mod button;
pub mod conf;
pub mod conn;
pub mod control;
pub mod event_queue;
pub mod led_strip;
pub mod lights;
pub mod motor;
pub mod ntc;
pub mod text;
