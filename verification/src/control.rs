//! The control loop's decisions: what each event from the bus does to the
//! motor and the lights.

use vstd::prelude::*;
use crate::button::ButtonEvent;
use crate::conn::ble::LovenseMessage;
use crate::event_queue::Event;
use crate::lights::{speed_frame, Lights, OFF};
use crate::motor::{duty_percent_of, Motor, MAX_STEP};

verus! {

/// The input whose click raises the power by one step.
pub const INCREASE_INPUT: i32 = 6;

/// The input whose click lowers the power by one step.
pub const DECREASE_INPUT: i32 = 7;

/// The input whose click stops the motor.
pub const STOP_INPUT: i32 = 8;

/// The power step that follows `step` on `event`, or `None` where the event
/// leaves the outputs alone.
///
/// A single click raises the step by one up to 20, lowers it by one down to
/// 0, or sets it to 0, by the input it comes from. A vibrate message sets the
/// step to its level, and to 20 if the level is above it. Nothing else has
/// an effect.
pub open spec fn next_step(step: nat, event: Event) -> Option<nat> {
    match event {
        Event::Button(ButtonEvent::SingleClick, input) => {
            if input == INCREASE_INPUT {
                Some(
                    if step < MAX_STEP {
                        step + 1
                    } else {
                        step
                    },
                )
            } else if input == DECREASE_INPUT {
                Some(
                    if step > 0 {
                        (step - 1) as nat
                    } else {
                        0
                    },
                )
            } else if input == STOP_INPUT {
                Some(0)
            } else {
                None
            }
        },
        Event::Lovense(LovenseMessage::Vibrate(level)) => Some(
            if level <= MAX_STEP {
                level as nat
            } else {
                MAX_STEP as nat
            },
        ),
        _ => None,
    }
}

/// What the peripherals are to show after an event.
#[derive(Debug, Clone, PartialEq, Eq)]
pub struct Output {
    /// The power step.
    pub step: u32,
    /// The share of the motor's drive signal, in percent.
    pub duty_percent: u32,
    /// The colours of the four lights, first to last.
    pub pixels: [(u32, u32, u32); 4],
}

/// The state that the control loop keeps between events.
pub struct ControlLoop {
    motor: Motor,
    lights: Lights,
}

impl ControlLoop {
    /// The current power step.
    pub closed spec fn step(&self) -> nat {
        self.motor@
    }

    /// The colours that the lights show.
    pub closed spec fn pixels(&self) -> Seq<(u32, u32, u32)> {
        self.lights.pixels@
    }

    /// The state at power-up: motor at rest, lights off.
    pub fn new() -> (c: Self)
        ensures
            c.step() == 0,
            c.pixels() == seq![OFF, OFF, OFF, OFF],
    {
        ControlLoop { motor: Motor::new(), lights: Lights::new() }
    }

    /// Applies one event from the bus.
    ///
    /// Returns what the motor and the lights are to be set to, or `None`
    /// where the event changes nothing; the state is then as before.
    pub fn handle(&mut self, event: Event) -> (out: Option<Output>)
        ensures
            match next_step(old(self).step(), event) {
                Some(step) => {
                    &&& final(self).step() == step
                    &&& final(self).pixels() == speed_frame(step)
                    &&& out is Some
                    &&& out->0.step == step
                    &&& out->0.duty_percent == duty_percent_of(step)
                    &&& out->0.pixels@ == speed_frame(step)
                },
                None => {
                    &&& out is None
                    &&& final(self).step() == old(self).step()
                    &&& final(self).pixels() == old(self).pixels()
                },
            },
    {
        let step: u32 = match event {
            Event::Button(ButtonEvent::SingleClick, input) => {
                if input == INCREASE_INPUT {
                    self.motor.inc()
                } else if input == DECREASE_INPUT {
                    self.motor.dec()
                } else if input == STOP_INPUT {
                    self.motor.set(0)
                } else {
                    return None;
                }
            },
            Event::Lovense(LovenseMessage::Vibrate(level)) => self.motor.set(level as u32),
            _ => {
                return None;
            },
        };
        self.lights.show_speed(step);
        Some(Output { step, duty_percent: self.motor.duty_percent(), pixels: self.lights.pixels })
    }
}

/// The power step never leaves the range from 0 to 20, whatever the events
/// ask for, and the motor's share is nothing or between 50 and 100 percent.
pub proof fn step_stays_in_range(step: nat, event: Event)
    requires
        step <= MAX_STEP,
    ensures
        next_step(step, event) is Some ==> next_step(step, event)->0 <= MAX_STEP,
        duty_percent_of(step) == 0 <==> step == 0,
        step > 0 ==> 50 <= duty_percent_of(step) <= 100,
{
}

} // verus!
