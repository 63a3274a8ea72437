//! The four indicator lights and the pattern that shows the power step.
//!
//! Twenty steps are shown on four lights: the colour tells the band of four
//! steps, the number of lit lights the place within the band. Lights fill
//! from the last one backwards.

use vstd::prelude::*;

verus! {

/// A light that is off.
pub const OFF: (u32, u32, u32) = (0, 0, 0);

/// The marker that the last light shows while the motor rests.
pub const IDLE: (u32, u32, u32) = (100, 100, 100);

/// How many of the four lights are lit at a step other than zero: all of
/// them from step 20 on, and below it the remainder of the step by four.
pub open spec fn lit_count(step: nat) -> nat {
    if step >= 20 {
        4
    } else {
        step % 4
    }
}

/// The colour of the band that `step` lies in: steps 0 to 3, 4 to 7, 8 to
/// 11, 12 to 15, and 16 and above.
pub open spec fn band_color(step: nat) -> (u32, u32, u32) {
    if step < 4 {
        (0, 17, 199)
    } else if step < 8 {
        (0, 176, 199)
    } else if step < 12 {
        (0, 199, 36)
    } else if step < 16 {
        (199, 116, 0)
    } else {
        (199, 0, 20)
    }
}

/// What the four lights show at `step`. At rest all are off but the last,
/// which carries the idle marker. Otherwise the last `lit_count(step)`
/// lights have the band's colour and the others are off.
pub open spec fn speed_frame(step: nat) -> Seq<(u32, u32, u32)> {
    if step == 0 {
        seq![OFF, OFF, OFF, IDLE]
    } else {
        Seq::new(
            4,
            |i: int|
                if i >= 4 - lit_count(step) {
                    band_color(step)
                } else {
                    OFF
                },
        )
    }
}

/// The colours of the four lights, first to last.
#[derive(Debug, Clone, PartialEq, Eq)]
pub struct Lights {
    pub pixels: [(u32, u32, u32); 4],
}

impl Lights {
    /// Four lights that are off.
    pub fn new() -> (l: Self)
        ensures
            l.pixels@ == seq![OFF, OFF, OFF, OFF],
    {
        let l = Lights { pixels: [OFF, OFF, OFF, OFF] };
        assert(l.pixels@ =~= seq![OFF, OFF, OFF, OFF]);
        l
    }

    /// Shows `pixels`, first to last.
    pub fn set_all(&mut self, pixels: [(u32, u32, u32); 4])
        ensures
            final(self).pixels == pixels,
    {
        self.pixels = pixels;
    }

    /// Shows the pattern of power step `pwr`.
    pub fn show_speed(&mut self, pwr: u32)
        ensures
            final(self).pixels@ == speed_frame(pwr as nat),
    {
        if pwr == 0 {
            self.set_all([OFF, OFF, OFF, IDLE]);
            assert(self.pixels@ =~= speed_frame(0));
            return ;
        }
        let led_qnt: u32 = if pwr < 20 {
            pwr % 4
        } else {
            4
        };
        let lit_color: (u32, u32, u32) = if pwr < 4 {
            (0, 17, 199)
        } else if pwr < 8 {
            (0, 176, 199)
        } else if pwr < 12 {
            (0, 199, 36)
        } else if pwr < 16 {
            (199, 116, 0)
        } else {
            (199, 0, 20)
        };
        let lit_leds: [(u32, u32, u32); 4] = if led_qnt == 0 {
            [OFF, OFF, OFF, OFF]
        } else if led_qnt == 1 {
            [OFF, OFF, OFF, lit_color]
        } else if led_qnt == 2 {
            [OFF, OFF, lit_color, lit_color]
        } else if led_qnt == 3 {
            [OFF, lit_color, lit_color, lit_color]
        } else {
            [lit_color, lit_color, lit_color, lit_color]
        };
        self.set_all(lit_leds);
        assert(self.pixels@ =~= speed_frame(pwr as nat));
    }
}

} // verus!
