//! The motor's power steps and their mapping onto the drive signal.

use vstd::prelude::*;
use std::ops::Range;

verus! {

/// The quotient of `a` by `b`, rounded toward zero. (The quotient `/` of
/// two integers rounds so that the remainder is not negative, which is
/// toward zero as long as `a` is not negative.)
pub open spec fn toward_zero(a: int, b: int) -> int {
    if a >= 0 {
        a / b
    } else {
        -((-a) / b)
    }
}

/// Where `val` of the range `lhs` lies in the range `rhs`, on a straight
/// line through the two starts and the two ends. Zero stays zero whatever
/// the ranges are.
pub open spec fn map_range_spec(lhs: Range<i64>, rhs: Range<i64>, val: i64) -> int {
    if val == 0 {
        0
    } else {
        rhs.start + toward_zero(
            (val - lhs.start) * (rhs.end - rhs.start),
            lhs.end - lhs.start,
        )
    }
}

/// Whether every step of the mapping of a `val` other than zero stays
/// within 64 bits, and the range `lhs` is not empty at a point.
pub open spec fn map_range_fits(lhs: Range<i64>, rhs: Range<i64>, val: i64) -> bool {
    &&& lhs.end != lhs.start
    &&& i64::MIN <= val - lhs.start <= i64::MAX
    &&& i64::MIN <= rhs.end - rhs.start <= i64::MAX
    &&& i64::MIN <= lhs.end - lhs.start <= i64::MAX
    &&& i64::MIN <= (val - lhs.start) * (rhs.end - rhs.start) <= i64::MAX
    &&& i64::MIN <= toward_zero((val - lhs.start) * (rhs.end - rhs.start), lhs.end - lhs.start)
        <= i64::MAX
    &&& i64::MIN <= map_range_spec(lhs, rhs, val) <= i64::MAX
}

/// Maps `val` from the range `lhs` into the range `rhs`.
pub fn map_range(lhs: Range<i64>, rhs: Range<i64>, val: i64) -> (r: i64)
    requires
        val != 0 ==> map_range_fits(lhs, rhs, val),
    ensures
        r == map_range_spec(lhs, rhs, val),
{
    if val == 0 {
        return 0;
    }
    let scaled: i64 = (val - lhs.start) * (rhs.end - rhs.start);
    let width: i64 = lhs.end - lhs.start;
    rhs.start + scaled / width
}

/// The highest power step.
pub const MAX_STEP: u32 = 20;

/// The share of the drive signal, in percent, that belongs to power step
/// `step`: nothing at step 0, and from there a straight line that would
/// start at 50 and ends at 100 at step 20.
pub open spec fn duty_percent_of(step: nat) -> nat {
    if step == 0 {
        0
    } else {
        (50 + step * 50 / 20) as nat
    }
}

/// The motor's power, in steps from 0 to 20.
pub struct Motor {
    duty: u32,
}

impl Motor {
    #[verifier::type_invariant]
    spec fn in_range(self) -> bool {
        self.duty <= MAX_STEP
    }

    /// The current power step.
    pub closed spec fn view(&self) -> nat {
        self.duty as nat
    }

    /// A motor at rest.
    pub fn new() -> (m: Self)
        ensures
            m@ == 0,
    {
        Motor { duty: 0 }
    }

    /// Sets the power step to `power`, or to 20 if `power` is above it, and
    /// returns the step that was set.
    pub fn set(&mut self, power: u32) -> (step: u32)
        ensures
            step == if power <= MAX_STEP {
                power
            } else {
                MAX_STEP
            },
            final(self)@ == step,
    {
        self.duty = if power <= MAX_STEP {
            power
        } else {
            MAX_STEP
        };
        self.duty
    }

    /// The current power step.
    pub fn get(&self) -> (step: u32)
        ensures
            step == self@,
            step <= MAX_STEP,
    {
        proof {
            use_type_invariant(self);
        }
        self.duty
    }

    /// One step up, unless the motor is at step 20 already.
    pub fn inc(&mut self) -> (step: u32)
        ensures
            step == if old(self)@ < MAX_STEP {
                old(self)@ + 1
            } else {
                old(self)@
            },
            final(self)@ == step,
    {
        if self.duty < MAX_STEP {
            self.set(self.duty + 1)
        } else {
            self.duty
        }
    }

    /// One step down, unless the motor is at rest already.
    pub fn dec(&mut self) -> (step: u32)
        ensures
            step == if old(self)@ > 0 {
                old(self)@ - 1
            } else {
                0
            },
            final(self)@ == step,
    {
        proof {
            use_type_invariant(&*self);
        }
        if self.duty > 0 {
            self.set(self.duty - 1)
        } else {
            self.duty
        }
    }

    /// The share of the drive signal for the current step, in percent.
    pub fn duty_percent(&self) -> (percent: u32)
        ensures
            percent == duty_percent_of(self@),
            percent == 0 || 50 <= percent <= 100,
    {
        proof {
            use_type_invariant(self);
        }
        let step = self.duty as i64;
        let mapped = map_range(0..MAX_STEP as i64, 50..100, step);
        mapped as u32
    }
}

/// The value to hand to a drive of resolution `max_duty` for a share of
/// `percent`: that share of `max_duty`, rounded down.
pub fn driver_duty(max_duty: u32, percent: u32) -> (duty: u32)
    requires
        percent <= 100,
    ensures
        duty == max_duty * percent / 100,
{
    assert(max_duty * percent <= max_duty * 100) by (nonlinear_arith)
        requires
            percent <= 100,
    ;
    let wide: u64 = max_duty as u64 * percent as u64 / 100;
    wide as u32
}

} // verus!
