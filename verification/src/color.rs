//! Color mapper: escape iteration count to an RGB triple.
//!
//! A count of zero (immediate escape) maps to white and a count that
//! reached the iteration cap maps to black.  Every other count is sent
//! through a hue wheel: the hue is `(9 * count) mod 360` degrees, and
//! the hue is converted to RGB at full saturation and full value.  At
//! full saturation and value the conversion needs no fractional
//! arithmetic: within each 60-degree sector one channel is 255, one is
//! 0, and the third ramps linearly, so each channel is the correctly
//! rounded value of an integer fraction.

use vstd::prelude::*;
use vstd::arithmetic::div_mod::lemma_mul_mod_noop_right;

verus! {

/// One pixel of the output image: an RGB triple, one byte per channel.
#[derive(Clone, Copy, Debug, PartialEq, Eq, Structural)]
pub struct Rgb {
    pub red: u8,
    pub green: u8,
    pub blue: u8,
}

/// The color of a pixel that escaped immediately.
pub open spec fn white() -> Rgb {
    Rgb { red: 255, green: 255, blue: 255 }
}

/// The color of a pixel that never escaped within the iteration cap.
pub open spec fn black() -> Rgb {
    Rgb { red: 0, green: 0, blue: 0 }
}

/// The hue, in whole degrees, assigned to an escape count.
pub open spec fn hue_of(count: u64) -> int {
    (9 * count) % 360
}

/// `255 * numer / 60`, rounded to the nearest integer: the rising ramp
/// of a hue sector, scaled to a byte channel.
pub open spec fn ramp(numer: int) -> u8 {
    ((255 * numer + 30) / 60) as u8
}

/// RGB value of a hue at full saturation and full value, `0 <= hue < 360`.
/// Each 60-degree sector holds one channel at 255, one at 0, and ramps
/// the third across the sector.
pub open spec fn hue_to_rgb(hue: int) -> Rgb {
    let sector = hue / 60;
    let offset = hue % 60;
    if sector == 0 {
        Rgb { red: 255, green: ramp(offset), blue: 0 }
    } else if sector == 1 {
        Rgb { red: ramp(60 - offset), green: 255, blue: 0 }
    } else if sector == 2 {
        Rgb { red: 0, green: 255, blue: ramp(offset) }
    } else if sector == 3 {
        Rgb { red: 0, green: ramp(60 - offset), blue: 255 }
    } else if sector == 4 {
        Rgb { red: ramp(offset), green: 0, blue: 255 }
    } else {
        Rgb { red: 255, green: 0, blue: ramp(60 - offset) }
    }
}

/// The color assigned to an escape count under a given iteration cap.
pub open spec fn colorize_spec(count: u64, max_iterations: u64) -> Rgb {
    if count == 0 {
        white()
    } else if count == max_iterations {
        black()
    } else {
        hue_to_rgb(hue_of(count))
    }
}

/// Maps an escape iteration count to its RGB color.
pub fn colorize(count: u64, max_iterations: u64) -> (rgb: Rgb)
    ensures
        rgb == colorize_spec(count, max_iterations),
{
    if count == 0 {
        Rgb { red: 255, green: 255, blue: 255 }
    } else if count == max_iterations {
        Rgb { red: 0, green: 0, blue: 0 }
    } else {
        let reduced: u64 = count % 360;
        let hue: u64 = (9 * reduced) % 360;
        proof {
            lemma_mul_mod_noop_right(9, count as int, 360);
        }
        let sector: u64 = hue / 60;
        let offset: u64 = hue % 60;
        let up: u8 = ((255 * offset + 30) / 60) as u8;
        let down: u8 = ((255 * (60 - offset) + 30) / 60) as u8;
        if sector == 0 {
            Rgb { red: 255, green: up, blue: 0 }
        } else if sector == 1 {
            Rgb { red: down, green: 255, blue: 0 }
        } else if sector == 2 {
            Rgb { red: 0, green: 255, blue: up }
        } else if sector == 3 {
            Rgb { red: 0, green: down, blue: 255 }
        } else if sector == 4 {
            Rgb { red: up, green: 0, blue: 255 }
        } else {
            Rgb { red: 255, green: 0, blue: down }
        }
    }
}

/// An immediate escape is drawn white and a capped pixel is drawn
/// black, whatever the iteration cap.
pub proof fn lemma_colorize_extremes(max_iterations: u64)
    requires
        max_iterations > 0,
    ensures
        colorize_spec(0, max_iterations) == white(),
        colorize_spec(max_iterations, max_iterations) == black(),
{
}

/// Every count strictly between escape and the cap is drawn fully
/// saturated: at least one channel sits at 255.
pub proof fn lemma_colorize_saturated(count: u64, max_iterations: u64)
    requires
        0 < count < max_iterations,
    ensures
        colorize_spec(count, max_iterations).red == 255
            || colorize_spec(count, max_iterations).green == 255
            || colorize_spec(count, max_iterations).blue == 255,
{
    let hue = hue_of(count);
    assert(0 <= hue < 360);
    assert(0 <= hue / 60 <= 5);
}

} // verus!
