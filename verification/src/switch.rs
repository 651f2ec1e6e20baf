//! A polarity-inverting model of a low-side-switched output.
//!
//! The load sits between the supply rail and the pin, so driving the line
//! *low* turns the load *on*. The model tracks the physical line level; the
//! surrounding code reads it back with [`LowActiveSwitch::output_level_high`]
//! and drives the real pin accordingly.

use vstd::prelude::*;

verus! {

/// Logical on/off switch for a load wired low-side: logical "on" is the low
/// physical level.
#[derive(Clone, Copy, PartialEq, Eq, Structural, Debug)]
pub struct LowActiveSwitch {
    level_high: bool,
}

impl LowActiveSwitch {
    /// The physical level currently driven on the output line.
    pub closed spec fn level_high(self) -> bool {
        self.level_high
    }

    /// The logical state: on exactly when the line is low.
    pub open spec fn is_on(self) -> bool {
        !self.level_high()
    }

    /// Creates a switch whose line currently sits at the given physical level.
    pub fn new(level_high: bool) -> (s: Self)
        ensures
            s.level_high() == level_high,
    {
        Self { level_high }
    }

    /// Turns the output off by driving the line high.
    pub fn switch_off(&mut self)
        ensures
            !final(self).is_on(),
    {
        self.level_high = true;
    }

    /// Turns the output on by driving the line low.
    pub fn switch_on(&mut self)
        ensures
            final(self).is_on(),
    {
        self.level_high = false;
    }

    /// Sets the output to the supplied logical state.
    pub fn switch(&mut self, on: bool)
        ensures
            final(self).is_on() == on,
    {
        match on {
            true => self.switch_on(),
            false => self.switch_off(),
        }
    }

    /// Reads back the physical level to drive on the real pin.
    pub fn output_level_high(&self) -> (b: bool)
        ensures
            b == self.level_high(),
    {
        self.level_high
    }
}

} // verus!
