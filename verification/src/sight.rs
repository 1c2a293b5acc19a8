//! The sight's own state: zeroing offsets, battery level, the dialed
//! range, and the drift computed for it, together with the pixel
//! geometry that places the point of aim and the computed point of
//! impact on the display.

use crate::ballistic_calculator::{
    calculate_drift, config_wf, drift_result, spec_pi, BBDrift, CalculatorConfiguration, Float,
};
use crate::fraction::{
    lemma_normalized_wf, lemma_wf_div, lemma_wf_div_scalar, lemma_wf_mul, raw_div_scalar, raw_mul,
    spec_div, spec_div_scalar, spec_mul, spec_value, wf, Fraction,
};
use crate::arith::sat32;
use vstd::prelude::*;

verus! {

/// A pixel position on the display, as the display driver counts them.
#[derive(Clone, Copy, Debug, PartialEq, Eq, Structural)]
pub struct Point {
    /// Horizontal pixel coordinate.
    pub x: i32,
    /// Vertical pixel coordinate.
    pub y: i32,
}

impl Point {
    /// Builds a point from its coordinates.
    pub fn new(x: i32, y: i32) -> (r: Self)
        ensures
            r.x == x,
            r.y == y,
    {
        Point { x, y }
    }
}

impl core::ops::Add for Point {
    type Output = Point;

    /// Componentwise sum of two pixel offsets.
    fn add(self, rhs: Point) -> (r: Point) {
        Point { x: self.x + rhs.x, y: self.y + rhs.y }
    }
}

impl vstd::std_specs::ops::AddSpecImpl for Point {
    open spec fn obeys_add_spec() -> bool {
        true
    }

    open spec fn add_req(self, rhs: Point) -> bool {
        i32::MIN <= self.x + rhs.x <= i32::MAX && i32::MIN <= self.y + rhs.y <= i32::MAX
    }

    open spec fn add_spec(self, rhs: Point) -> Point {
        Point { x: (self.x + rhs.x) as i32, y: (self.y + rhs.y) as i32 }
    }
}

/// The sight's state as the control loop owns it.
#[derive(Clone, Copy, Debug, PartialEq, Eq, Structural)]
pub struct Sight {
    /// Horizontal zeroing offset, in pixels.
    pub x_zero: i8,
    /// Vertical zeroing offset, in pixels.
    pub y_zero: i8,
    /// Battery level indicator.
    pub battery_power: u8,
    /// Dialed target range, in meters.
    pub range: u8,
    /// The range the stored drift was computed for.
    pub last_range: u8,
    /// The firing configuration.
    pub configuration: CalculatorConfiguration,
    /// Drift computed for `last_range`.
    pub drift: BBDrift,
}

/// Where the pixel conversion of a drift lands: the drift scaled by the
/// axis size and divided by a quarter of pi times the range.
pub open spec fn spec_to_pixels(range: u8, drift: Fraction, axis_size: u8) -> int {
    spec_value(
        spec_div(
            spec_mul(drift, Fraction { numerator: axis_size as i32, denominator: 1 }),
            spec_div_scalar(
                spec_mul(spec_pi(), Fraction { numerator: range as i32, denominator: 1 }),
                4,
            ),
        ),
    )
}

/// Converts a drift in meters to a pixel offset on one display axis.
/// The caller guards against a zero range; the conversion itself does
/// not.
fn to_pixels(range: u8, drift: Float, axis_size: u8) -> (r: i32)
    requires
        wf(drift),
        range >= 1,
    ensures
        r as int == spec_to_pixels(range, drift, axis_size),
{
    proof {
        let axis_frac = Fraction { numerator: axis_size as i32, denominator: 1 };
        let range_frac = Fraction { numerator: range as i32, denominator: 1 };
        lemma_wf_mul(drift, axis_frac);
        lemma_wf_mul(spec_pi(), range_frac);
        assert(22 <= 22 * range as int <= 5610) by (nonlinear_arith)
            requires
                1 <= range as int <= 255,
        ;
        assert(sat32(22 * range as int) == 22 * range as int);
        lemma_normalized_wf(raw_mul(spec_pi(), range_frac));
        let p1 = spec_mul(spec_pi(), range_frac);
        assert(p1.numerator >= 1);
        lemma_wf_div_scalar(p1, 4);
        lemma_normalized_wf(raw_div_scalar(p1, 4));
        let p2 = spec_div_scalar(p1, 4);
        assert(p2.numerator >= 1);
        lemma_wf_div(spec_mul(drift, axis_frac), p2);
    }
    (drift * Float::from(axis_size as i32) / (crate::ballistic_calculator::pi() * Float::from(
        range as i32,
    ) / 4)).value()
}

impl Sight {
    /// The pixel the shooter aims with: display center shifted by the
    /// zeroing offsets.
    pub fn point_of_aim(&self) -> (r: Point)
        ensures
            r.x == 64 + self.x_zero as int,
            r.y == 48 + self.y_zero as int,
    {
        Point::new(64 + self.x_zero as i32, 96 / 2 + self.y_zero as i32)
    }

    /// The pixel where the computed drift lands the projectile: the
    /// point of aim shifted by the drift pair converted to pixels on a
    /// 128 by 96 display.
    pub fn calculated_point_of_impact(&self) -> (r: Point)
        requires
            wf(self.drift.drift_x),
            wf(self.drift.drift_y),
            self.range >= 1,
            i32::MIN <= 64 + self.x_zero as int + spec_to_pixels(self.range, self.drift.drift_x, 128)
                <= i32::MAX,
            i32::MIN <= 48 + self.y_zero as int + spec_to_pixels(self.range, self.drift.drift_y, 96)
                <= i32::MAX,
        ensures
            r.x == 64 + self.x_zero as int + spec_to_pixels(self.range, self.drift.drift_x, 128),
            r.y == 48 + self.y_zero as int + spec_to_pixels(self.range, self.drift.drift_y, 96),
    {
        self.point_of_aim() + Point::new(
            to_pixels(self.range, self.drift.drift_x, 128),
            to_pixels(self.range, self.drift.drift_y, 96),
        )
    }

    /// Recomputes the stored drift when the dialed range has moved, and
    /// records the range it was computed for.
    pub fn update(&mut self)
        requires
            old(self).range >= 1 && old(self).configuration.muzzle_energy.numerator >= 1
                ==> config_wf(old(self).configuration),
        ensures
            old(self).range == old(self).last_range ==> *final(self) == *old(self),
            old(self).range != old(self).last_range ==> ({
                &&& final(self).range == old(self).range
                &&& final(self).last_range == old(self).range
                &&& final(self).x_zero == old(self).x_zero
                &&& final(self).y_zero == old(self).y_zero
                &&& final(self).battery_power == old(self).battery_power
                &&& final(self).configuration == old(self).configuration
                &&& drift_result(
                    old(self).configuration,
                    Fraction { numerator: old(self).range as i32, denominator: 1 },
                    final(self).drift,
                )
            }),
    {
        if self.range == self.last_range {
            return ;
        }
        self.drift = calculate_drift(&self.configuration, Float::from(self.range as i32));
        self.last_range = self.range;
    }
}

} // verus!
