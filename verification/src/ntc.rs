//! The settings of the thermistor that watches the motor.

use vstd::prelude::*;

verus! {

/// On which side of the divider the thermistor sits.
#[derive(Debug, Clone, Copy, PartialEq, Eq, Structural)]
pub enum ThermistorCircuitMode {
    /// Between the supply and the measuring point.
    NtcVcc,
    /// Between the measuring point and ground.
    NtcGnd,
}

impl ThermistorCircuitMode {
    /// The number that the thermistor driver knows this wiring by.
    pub open spec fn code_spec(self) -> u32 {
        match self {
            ThermistorCircuitMode::NtcVcc => 0,
            ThermistorCircuitMode::NtcGnd => 1,
        }
    }

    /// The number that the thermistor driver knows this wiring by.
    pub fn code(&self) -> (r: u32)
        ensures
            r == self.code_spec(),
    {
        match self {
            ThermistorCircuitMode::NtcVcc => 0,
            ThermistorCircuitMode::NtcGnd => 1,
        }
    }
}

/// The thermistor's constants and the circuit around it.
#[derive(Debug, Clone, PartialEq, Eq)]
pub struct ThermistorConfig {
    pub b_value: u32,
    pub r25_ohm: u32,
    pub fixed_ohm: u32,
    pub vdd_mv: u32,
    pub circuit_mode: ThermistorCircuitMode,
}

} // verus!
