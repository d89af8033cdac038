//! The position that a raw reading of an axis stands for under a
//! calibration, as an exact fraction between 0 and 1.
//!
//! Readings from the minimum up to the lower edge of the deadzone map to the
//! lower half, readings from the upper edge of the deadzone up to the maximum
//! to the upper half, and every reading within the deadzone to one half.

use vstd::prelude::*;

verus! {

/// A fraction between 0 and 1.
#[derive(Debug, Clone, Copy, PartialEq, Eq, Structural)]
pub struct AxisPosition {
    pub numerator: u32,
    pub denominator: u32,
}

impl AxisPosition {
    /// The denominator is positive and the fraction is at most 1.
    pub open spec fn wf(&self) -> bool {
        0 < self.denominator && self.numerator <= self.denominator
    }
}

/// The fraction `n / d` with `d > 0`, held to the range from 0 to 1.
pub open spec fn clamped(n: int, d: int) -> (int, int) {
    if n <= 0 {
        (0, 1)
    } else if n >= d {
        (1, 1)
    } else {
        (n, d)
    }
}

/// The fraction `n / d` with `d != 0`, held to the range from 0 to 1.
pub open spec fn clamped_ratio(n: int, d: int) -> (int, int) {
    if d > 0 {
        clamped(n, d)
    } else {
        clamped(-n, -d)
    }
}

/// The position of `value` as numerator and denominator. Below the
/// deadzone it is `(value - min) / (center - deadzone - min) / 2`, above the
/// deadzone `(value - deadzone - center) / (max - center - deadzone) / 2 +
/// 1/2`, within it one half; all held to the range from 0 to 1. Where the
/// deadzone reaches the minimum, every reading below it stands for 0; where
/// it reaches the maximum, every reading above it stands for 1.
pub open spec fn remapped(value: int, min: int, center: int, max: int, deadzone: int) -> (
    int,
    int,
) {
    if value < center - deadzone {
        let d = center - deadzone - min;
        if d == 0 {
            (0, 1)
        } else {
            clamped_ratio(value - min, 2 * d)
        }
    } else if value > center + deadzone {
        let d = max - center - deadzone;
        if d == 0 {
            (1, 1)
        } else {
            clamped_ratio(value - deadzone - center + d, 2 * d)
        }
    } else {
        (1, 2)
    }
}

/// Holds the fraction `n / d` with `d != 0` to the range from 0 to 1.
fn clamp_ratio(n: i32, d: i32) -> (position: AxisPosition)
    requires
        d != 0,
        -0x4_0000 < n < 0x4_0000,
        -0x4_0000 < d < 0x4_0000,
    ensures
        (position.numerator as int, position.denominator as int) == clamped_ratio(
            n as int,
            d as int,
        ),
        position.wf(),
{
    let (n, d) = if d > 0 {
        (n, d)
    } else {
        (-n, -d)
    };
    if n <= 0 {
        AxisPosition { numerator: 0, denominator: 1 }
    } else if n >= d {
        AxisPosition { numerator: 1, denominator: 1 }
    } else {
        AxisPosition { numerator: n as u32, denominator: d as u32 }
    }
}

/// The position that a raw reading stands for under a calibration.
pub fn remap_calibrated_axis(value: u16, min: u16, center: u16, max: u16, deadzone: u16) -> (position:
    AxisPosition)
    ensures
        (position.numerator as int, position.denominator as int) == remapped(
            value as int,
            min as int,
            center as int,
            max as int,
            deadzone as int,
        ),
        position.wf(),
{
    let value: i32 = value as i32;
    let min: i32 = min as i32;
    let center: i32 = center as i32;
    let max: i32 = max as i32;
    let deadzone: i32 = deadzone as i32;
    if value < center - deadzone {
        let d: i32 = center - deadzone - min;
        if d == 0 {
            AxisPosition { numerator: 0, denominator: 1 }
        } else {
            clamp_ratio(value - min, 2 * d)
        }
    } else if value > center + deadzone {
        let d: i32 = max - center - deadzone;
        if d == 0 {
            AxisPosition { numerator: 1, denominator: 1 }
        } else {
            clamp_ratio(value - deadzone - center + d, 2 * d)
        }
    } else {
        AxisPosition { numerator: 1, denominator: 2 }
    }
}

/// Without a deadzone the center stands for one half, the maximum for 1 if
/// it lies above the center, and the minimum for 0 if it lies below the
/// center.
pub proof fn lemma_remap_boundaries(min: int, center: int, max: int)
    ensures
        remapped(center, min, center, max, 0) == (1int, 2int),
        center < max ==> remapped(max, min, center, max, 0) == (1int, 1int),
        min < center ==> remapped(min, min, center, max, 0) == (0int, 1int),
{
}

/// Every position lies between 0 and 1, and every reading within the
/// deadzone stands for one half.
pub proof fn lemma_remap_range(value: int, min: int, center: int, max: int, deadzone: int)
    ensures
        0 <= remapped(value, min, center, max, deadzone).0 <= remapped(
            value,
            min,
            center,
            max,
            deadzone,
        ).1,
        0 < remapped(value, min, center, max, deadzone).1,
        center - deadzone <= value <= center + deadzone ==> remapped(
            value,
            min,
            center,
            max,
            deadzone,
        ) == (1int, 2int),
{
}

/// Under a calibration whose deadzone lies within its range, readings
/// below the deadzone stand for at most one half and readings above it for
/// at least one half.
pub proof fn lemma_remap_halves(value: int, min: int, center: int, max: int, deadzone: int)
    requires
        0 <= deadzone,
        min <= center - deadzone,
        center + deadzone <= max,
    ensures
        value < center - deadzone ==> 2 * remapped(value, min, center, max, deadzone).0
            <= remapped(value, min, center, max, deadzone).1,
        value > center + deadzone ==> 2 * remapped(value, min, center, max, deadzone).0
            >= remapped(value, min, center, max, deadzone).1,
{
}

/// Under a calibration whose deadzone lies within its range, a larger
/// reading never stands for a smaller position.
pub proof fn lemma_remap_monotone(
    lower: int,
    higher: int,
    min: int,
    center: int,
    max: int,
    deadzone: int,
)
    requires
        lower <= higher,
        0 <= deadzone,
        min <= center - deadzone,
        center + deadzone <= max,
    ensures
        remapped(lower, min, center, max, deadzone).0 * remapped(
            higher,
            min,
            center,
            max,
            deadzone,
        ).1 <= remapped(higher, min, center, max, deadzone).0 * remapped(
            lower,
            min,
            center,
            max,
            deadzone,
        ).1,
{
    let a = remapped(lower, min, center, max, deadzone);
    let b = remapped(higher, min, center, max, deadzone);
    lemma_remap_range(lower, min, center, max, deadzone);
    lemma_remap_range(higher, min, center, max, deadzone);
    lemma_remap_halves(lower, min, center, max, deadzone);
    lemma_remap_halves(higher, min, center, max, deadzone);
    if a.1 == b.1 {
        assert(a.0 <= b.0);
        assert(a.0 * b.1 <= b.0 * a.1) by (nonlinear_arith)
            requires
                a.0 <= b.0,
                a.1 == b.1,
                0 < a.1,
        ;
    } else if a.0 == 0 {
        assert(0 <= b.0 * a.1) by (nonlinear_arith)
            requires
                0 <= b.0,
                0 < a.1,
        ;
    } else if b.0 == b.1 {
        assert(a.0 * b.1 <= b.0 * a.1) by (nonlinear_arith)
            requires
                0 <= a.0 <= a.1,
                b.0 == b.1,
                0 < b.1,
        ;
    } else {
        assert(2 * a.0 <= a.1 && b.1 <= 2 * b.0);
        assert(a.0 * b.1 <= b.0 * a.1) by (nonlinear_arith)
            requires
                0 <= a.0,
                0 < b.1,
                2 * a.0 <= a.1,
                b.1 <= 2 * b.0,
        ;
    }
}

} // verus!
