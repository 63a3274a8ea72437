//! Push buttons: how one is set up and what it can report.

use vstd::prelude::*;
use std::time::Duration;

verus! {

/// The electrical level at which a button counts as pressed.
#[derive(Debug, Clone, Copy, PartialEq, Eq, Structural)]
pub enum ActiveLevel {
    Low,
    High,
}

impl ActiveLevel {
    /// The number that the button driver knows this level by.
    pub open spec fn code_spec(self) -> u8 {
        match self {
            ActiveLevel::Low => 0,
            ActiveLevel::High => 1,
        }
    }

    /// The number that the button driver knows this level by.
    pub fn code(&self) -> (r: u8)
        ensures
            r == self.code_spec(),
    {
        match self {
            ActiveLevel::Low => 0,
            ActiveLevel::High => 1,
        }
    }
}

/// Settings of one button. A press time of `None` leaves the driver's own.
#[derive(Debug, Clone)]
pub struct ButtonConfig {
    pub long_press_time: Option<Duration>,
    pub short_press_time: Option<Duration>,
    pub active_level: ActiveLevel,
    pub enable_power_save: bool,
    pub disable_pull: bool,
}

impl Default for ButtonConfig {
    /// An active-high button with the driver's press times, pull resistor on
    /// and power saving off.
    fn default() -> (r: Self)
        ensures
            r.long_press_time is None,
            r.short_press_time is None,
            r.active_level == ActiveLevel::High,
            !r.enable_power_save,
            !r.disable_pull,
    {
        Self {
            long_press_time: None,
            short_press_time: None,
            active_level: ActiveLevel::High,
            enable_power_save: false,
            disable_pull: false,
        }
    }
}

/// What a button reports, in the order in which the driver numbers them.
#[derive(Debug, Clone, Copy, PartialEq, Eq, Structural)]
pub enum ButtonEvent {
    PressDown,
    PressUp,
    PressRepeat,
    PressRepeatDone,
    SingleClick,
    DoubleClick,
    MultipleClick,
    LongPressStart,
    LongPressHold,
    LongPressUp,
    PressEnd,
    EventMax,
    NonePress,
}

impl Default for ButtonEvent {
    fn default() -> (r: Self)
        ensures
            r == ButtonEvent::PressDown,
    {
        ButtonEvent::PressDown
    }
}

impl ButtonEvent {
    /// The driver's number of this event: 0 for `PressDown` up to 12 for
    /// `NonePress`.
    pub open spec fn code_spec(self) -> u32 {
        match self {
            ButtonEvent::PressDown => 0,
            ButtonEvent::PressUp => 1,
            ButtonEvent::PressRepeat => 2,
            ButtonEvent::PressRepeatDone => 3,
            ButtonEvent::SingleClick => 4,
            ButtonEvent::DoubleClick => 5,
            ButtonEvent::MultipleClick => 6,
            ButtonEvent::LongPressStart => 7,
            ButtonEvent::LongPressHold => 8,
            ButtonEvent::LongPressUp => 9,
            ButtonEvent::PressEnd => 10,
            ButtonEvent::EventMax => 11,
            ButtonEvent::NonePress => 12,
        }
    }

    /// The driver's number of this event.
    pub fn code(&self) -> (r: u32)
        ensures
            r == self.code_spec(),
    {
        match self {
            ButtonEvent::PressDown => 0,
            ButtonEvent::PressUp => 1,
            ButtonEvent::PressRepeat => 2,
            ButtonEvent::PressRepeatDone => 3,
            ButtonEvent::SingleClick => 4,
            ButtonEvent::DoubleClick => 5,
            ButtonEvent::MultipleClick => 6,
            ButtonEvent::LongPressStart => 7,
            ButtonEvent::LongPressHold => 8,
            ButtonEvent::LongPressUp => 9,
            ButtonEvent::PressEnd => 10,
            ButtonEvent::EventMax => 11,
            ButtonEvent::NonePress => 12,
        }
    }

    /// The event that the driver numbers `code`; `None` above 12.
    pub fn from_code(code: u32) -> (r: Option<ButtonEvent>)
        ensures
            code <= 12 ==> r is Some && r->0.code_spec() == code,
            code > 12 ==> r is None,
    {
        if code == 0 {
            Some(ButtonEvent::PressDown)
        } else if code == 1 {
            Some(ButtonEvent::PressUp)
        } else if code == 2 {
            Some(ButtonEvent::PressRepeat)
        } else if code == 3 {
            Some(ButtonEvent::PressRepeatDone)
        } else if code == 4 {
            Some(ButtonEvent::SingleClick)
        } else if code == 5 {
            Some(ButtonEvent::DoubleClick)
        } else if code == 6 {
            Some(ButtonEvent::MultipleClick)
        } else if code == 7 {
            Some(ButtonEvent::LongPressStart)
        } else if code == 8 {
            Some(ButtonEvent::LongPressHold)
        } else if code == 9 {
            Some(ButtonEvent::LongPressUp)
        } else if code == 10 {
            Some(ButtonEvent::PressEnd)
        } else if code == 11 {
            Some(ButtonEvent::EventMax)
        } else if code == 12 {
            Some(ButtonEvent::NonePress)
        } else {
            None
        }
    }
}

/// No two events share a number: an event is found again from its number.
pub proof fn button_code_round_trip(a: ButtonEvent, b: ButtonEvent)
    ensures
        a.code_spec() <= 12,
        a.code_spec() == b.code_spec() ==> a == b,
{
}

} // verus!
