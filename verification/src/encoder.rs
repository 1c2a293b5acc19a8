//! The rotary encoder's decision logic: how one sample of the two
//! quadrature lines moves the position counter.  Reading the physical
//! pins, and the button, is the control loop's job outside the library;
//! it hands the sampled levels in as plain booleans.

use vstd::prelude::*;

verus! {

/// A simple rotary encoder with optional push button: the position
/// counter and the last sampled level of the first quadrature line.
pub struct RotaryEncoder {
    /// The level of line A at the previous sample.
    pub last_a: bool,
    /// The accumulated position counter.
    pub position: i32,
}

/// Where one sample moves the counter: on a rising edge of line A the
/// level of line B decides the direction; otherwise nothing moves.
pub open spec fn encoder_step(last_a: bool, position: int, current_a: bool, b: bool) -> int {
    if current_a != last_a && current_a {
        if b {
            position - 1
        } else {
            position + 1
        }
    } else {
        position
    }
}

impl RotaryEncoder {
    /// Starts the counter at zero, remembering the initial level of
    /// line A.
    pub fn new(initial_a: bool) -> (r: Self)
        ensures
            r.last_a == initial_a,
            r.position == 0,
    {
        RotaryEncoder { last_a: initial_a, position: 0 }
    }

    /// Feeds one sample of the two quadrature lines.
    pub fn update(&mut self, current_a: bool, b: bool)
        requires
            i32::MIN < old(self).position < i32::MAX,
        ensures
            final(self).position as int == encoder_step(
                old(self).last_a,
                old(self).position as int,
                current_a,
                b,
            ),
            final(self).last_a == current_a || final(self).last_a == old(self).last_a,
            final(self).last_a == (if current_a != old(self).last_a {
                current_a
            } else {
                old(self).last_a
            }),
    {
        if current_a != self.last_a {
            if current_a {
                let b_level = b;
                if b_level {
                    self.position = self.position - 1;
                } else {
                    self.position = self.position + 1;
                }
            }
            self.last_a = current_a;
        }
    }

    /// The current position counter.
    pub fn position(&self) -> (r: i32)
        ensures
            r == self.position,
    {
        self.position
    }

    /// Resets the position counter to 0.
    pub fn reset(&mut self)
        ensures
            final(self).position == 0,
            final(self).last_a == old(self).last_a,
    {
        self.position = 0;
    }
}

} // verus!
