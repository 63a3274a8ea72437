//! The settings of the addressable light strip.

use vstd::prelude::*;

verus! {

/// The kind of light on the strip.
#[derive(Debug, Clone, Copy, PartialEq, Eq, Structural)]
pub enum LedModel {
    WS2812,
    SK6812,
    WS2811,
}

impl LedModel {
    /// The number that the strip driver knows this kind by.
    pub open spec fn code_spec(self) -> u32 {
        match self {
            LedModel::WS2812 => 0,
            LedModel::SK6812 => 1,
            LedModel::WS2811 => 2,
        }
    }

    /// The number that the strip driver knows this kind by.
    pub fn code(&self) -> (r: u32)
        ensures
            r == self.code_spec(),
    {
        match self {
            LedModel::WS2812 => 0,
            LedModel::SK6812 => 1,
            LedModel::WS2811 => 2,
        }
    }
}

/// The order in which a light takes its colour components: the place of
/// red, green, blue and white on the wire, and how many of them are sent.
#[derive(Debug, Clone, Copy, PartialEq, Eq, Structural)]
pub struct LedColorFormat {
    pub r_pos: u8,
    pub g_pos: u8,
    pub b_pos: u8,
    pub w_pos: u8,
    pub num_components: u8,
}

impl LedColorFormat {
    /// Whether the four components have four different places from 0 to 3
    /// and three or four of them are sent.
    pub open spec fn wf(self) -> bool {
        &&& self.r_pos < 4 && self.g_pos < 4 && self.b_pos < 4 && self.w_pos < 4
        &&& self.r_pos != self.g_pos && self.r_pos != self.b_pos && self.r_pos != self.w_pos
        &&& self.g_pos != self.b_pos && self.g_pos != self.w_pos && self.b_pos != self.w_pos
        &&& (self.num_components == 3 || self.num_components == 4)
    }

    /// Green, red, blue.
    pub fn grb() -> (f: Self)
        ensures
            f == (LedColorFormat { r_pos: 1, g_pos: 0, b_pos: 2, w_pos: 3, num_components: 3 }),
            f.wf(),
    {
        LedColorFormat { r_pos: 1, g_pos: 0, b_pos: 2, w_pos: 3, num_components: 3 }
    }

    /// Green, red, blue, white.
    pub fn grbw() -> (f: Self)
        ensures
            f == (LedColorFormat { r_pos: 1, g_pos: 0, b_pos: 2, w_pos: 3, num_components: 4 }),
            f.wf(),
    {
        LedColorFormat { r_pos: 1, g_pos: 0, b_pos: 2, w_pos: 3, num_components: 4 }
    }

    /// Red, green, blue.
    pub fn rgb() -> (f: Self)
        ensures
            f == (LedColorFormat { r_pos: 0, g_pos: 1, b_pos: 2, w_pos: 3, num_components: 3 }),
            f.wf(),
    {
        LedColorFormat { r_pos: 0, g_pos: 1, b_pos: 2, w_pos: 3, num_components: 3 }
    }

    /// Red, green, blue, white.
    pub fn rgbw() -> (f: Self)
        ensures
            f == (LedColorFormat { r_pos: 0, g_pos: 1, b_pos: 2, w_pos: 3, num_components: 4 }),
            f.wf(),
    {
        LedColorFormat { r_pos: 0, g_pos: 1, b_pos: 2, w_pos: 3, num_components: 4 }
    }
}

/// The settings of a strip.
#[derive(Debug, Clone, PartialEq, Eq)]
pub struct LedStripConfig {
    pub max_leds: u32,
    pub model: LedModel,
    pub color_format: LedColorFormat,
}

} // verus!
