//! The bank of storey LEDs: applying bit-pattern rows, switching the whole
//! bank, and the two animation step machines (cycle and blink).
//!
//! The animations run forever at a fixed cadence until their caller
//! abandons them; each tick of an animation is one verified step, and the
//! caller owns the cadence (it performs one step per timer tick).

use vstd::prelude::*;

use crate::switch::LowActiveSwitch;

verus! {

/// The number of storey LEDs on the board.
pub const STOREY_LEDS: usize = 8;

/// Whether bit `i` of the pattern row `pattern` is set (bit 0 is the least
/// significant bit and belongs to channel 0).
pub open spec fn row_bit(pattern: u8, i: int) -> bool {
    (pattern >> (i as u8)) & 1 == 1
}

/// The bank of storey LEDs, one low-active switch per channel.
#[derive(Clone, Copy, Debug)]
pub struct Storeys {
    leds: [LowActiveSwitch; STOREY_LEDS],
}

impl Storeys {
    /// The switches of the bank, channel 0 first.
    pub closed spec fn leds(self) -> Seq<LowActiveSwitch> {
        self.leds@
    }

    /// Whether the LED of channel `i` is logically on.
    #[verifier::inline]
    pub open spec fn led_on(self, i: int) -> bool {
        self.leds()[i].is_on()
    }

    /// Whether every LED of the bank is off.
    pub open spec fn all_leds_off(self) -> bool {
        forall|i: int| 0 <= i < STOREY_LEDS ==> !self.led_on(i)
    }

    /// Whether every LED of the bank is on.
    pub open spec fn all_leds_on(self) -> bool {
        forall|i: int| 0 <= i < STOREY_LEDS ==> self.led_on(i)
    }

    /// Whether exactly the LED of channel `i` is on.
    pub open spec fn only_led_on(self, i: int) -> bool {
        forall|j: int| 0 <= j < STOREY_LEDS ==> (self.led_on(j) <==> j == i)
    }

    pub fn new(leds: [LowActiveSwitch; STOREY_LEDS]) -> (s: Self)
        ensures
            s.leds() == leds@,
    {
        Self { leds }
    }

    /// Releases the switches again.
    pub fn free(self) -> (leds: [LowActiveSwitch; STOREY_LEDS])
        ensures
            leds@ == self.leds(),
    {
        self.leds
    }

    /// Switches all storey LEDs off.
    pub fn all_off(&mut self)
        ensures
            final(self).all_leds_off(),
    {
        let mut i: usize = 0;
        while i < STOREY_LEDS
            invariant
                i <= STOREY_LEDS,
                self.leds@.len() == STOREY_LEDS,
                forall|j: int| 0 <= j < i ==> !self.led_on(j),
            decreases STOREY_LEDS - i,
        {
            let ghost prior = self.leds();
            let mut led = self.leds[i];
            led.switch_off();
            self.leds[i] = led;
            proof {
                assert(self.leds() == prior.update(i as int, led));
            }
            i = i + 1;
        }
    }

    /// Switches all storey LEDs on.
    pub fn all_on(&mut self)
        ensures
            final(self).all_leds_on(),
    {
        let mut i: usize = 0;
        while i < STOREY_LEDS
            invariant
                i <= STOREY_LEDS,
                self.leds@.len() == STOREY_LEDS,
                forall|j: int| 0 <= j < i ==> self.led_on(j),
            decreases STOREY_LEDS - i,
        {
            let ghost prior = self.leds();
            let mut led = self.leds[i];
            led.switch_on();
            self.leds[i] = led;
            proof {
                assert(self.leds() == prior.update(i as int, led));
            }
            i = i + 1;
        }
    }

    /// Sets the storey LEDs to the supplied pattern row. The bit at index
    /// `i` of `pattern` gives the logical state of the LED of channel `i`.
    pub fn set_pattern(&mut self, pattern: u8)
        ensures
            forall|i: int| 0 <= i < STOREY_LEDS ==> final(self).led_on(i) == row_bit(pattern, i),
    {
        let mut i: usize = 0;
        while i < STOREY_LEDS
            invariant
                i <= STOREY_LEDS,
                self.leds@.len() == STOREY_LEDS,
                forall|j: int| 0 <= j < i ==> self.led_on(j) == row_bit(pattern, j),
            decreases STOREY_LEDS - i,
        {
            let bit: u8 = (pattern >> (i as u8)) & 1;
            let on = bit == 1;
            let ghost prior = self.leds();
            let mut led = self.leds[i];
            led.switch(on);
            self.leds[i] = led;
            proof {
                assert(self.leds() == prior.update(i as int, led));
            }
            i = i + 1;
        }
    }

    /// Sets the LED of channel `i` alone to the supplied logical state.
    pub fn switch_led(&mut self, i: usize, on: bool)
        requires
            i < STOREY_LEDS,
        ensures
            final(self).led_on(i as int) == on,
            forall|j: int|
                0 <= j < STOREY_LEDS && j != i ==> final(self).leds()[j] == old(self).leds()[j],
    {
        let ghost prior = self.leds();
        let mut led = self.leds[i];
        led.switch(on);
        self.leds[i] = led;
        proof {
            assert(self.leds() == prior.update(i as int, led));
        }
    }

    /// Reads back whether the LED of channel `i` is logically on.
    pub fn led_is_on(&self, i: usize) -> (b: bool)
        requires
            i < STOREY_LEDS,
        ensures
            b == self.led_on(i as int),
    {
        !self.leds[i].output_level_high()
    }

    /// Reads back the physical level to drive on the pin of channel `i`.
    pub fn output_level_high(&self, i: usize) -> (b: bool)
        requires
            i < STOREY_LEDS,
        ensures
            b == self.leds()[i as int].level_high(),
    {
        self.leds[i].output_level_high()
    }
}

/// The channel that a cycle step switches off when it switches channel `i`
/// on: the previous one, wrapping around the bank.
pub open spec fn cycle_prev(i: int) -> int {
    (i + STOREY_LEDS - 1) % (STOREY_LEDS as int)
}

/// Step machine for the cycle animation: exactly one storey LED is lit at a
/// time, and each step advances the lit LED by one channel, wrapping around.
/// The caller performs one step per timer tick.
#[derive(Clone, Copy, PartialEq, Eq, Structural, Debug)]
pub struct Cycler {
    next: usize,
}

impl Cycler {
    /// The channel the next step will switch on.
    pub closed spec fn next_channel(self) -> int {
        self.next as int
    }

    pub open spec fn wf(self) -> bool {
        0 <= self.next_channel() < STOREY_LEDS
    }

    /// Starts the animation: the whole bank goes off before the first
    /// tick lights the first channel.
    pub fn new(storeys: &mut Storeys) -> (c: Self)
        ensures
            c.wf(),
            c.next_channel() == 0,
            final(storeys).all_leds_off(),
    {
        storeys.all_off();
        Self { next: 0 }
    }

    /// One tick of the animation: switches the previous channel off, the
    /// current one on, and advances.
    ///
    /// Starting from a bank that is all off, or showing exactly the previous
    /// channel, the bank afterwards shows exactly the stepped channel: the
    /// animation keeps one LED lit at a time.
    pub fn step(&mut self, storeys: &mut Storeys)
        requires
            old(self).wf(),
        ensures
            final(self).wf(),
            final(self).next_channel() == (old(self).next_channel() + 1) % (STOREY_LEDS as int),
            final(storeys).led_on(old(self).next_channel()),
            !final(storeys).led_on(cycle_prev(old(self).next_channel())),
            forall|j: int|
                0 <= j < STOREY_LEDS && j != old(self).next_channel() && j != cycle_prev(
                    old(self).next_channel(),
                ) ==> final(storeys).leds()[j] == old(storeys).leds()[j],
            old(storeys).all_leds_off() || old(storeys).only_led_on(
                cycle_prev(old(self).next_channel()),
            ) ==> final(storeys).only_led_on(old(self).next_channel()),
    {
        let n = self.next;
        let previous = (n + STOREY_LEDS - 1) % STOREY_LEDS;
        storeys.switch_led(previous, false);
        storeys.switch_led(n, true);
        self.next = (n + 1) % STOREY_LEDS;
    }
}

/// Step machine for the blink animation: the whole bank alternates between
/// all on and all off, starting with on. The caller performs one step per
/// timer tick.
#[derive(Clone, Copy, PartialEq, Eq, Structural, Debug)]
pub struct Blinker {
    on_phase: bool,
}

impl Blinker {
    /// Whether the next step switches the bank on (rather than off).
    pub closed spec fn on_phase(self) -> bool {
        self.on_phase
    }

    pub fn new() -> (b: Self)
        ensures
            b.on_phase(),
    {
        Self { on_phase: true }
    }

    /// One tick of the animation: applies the current phase to the whole
    /// bank and flips the phase.
    pub fn step(&mut self, storeys: &mut Storeys)
        ensures
            old(self).on_phase() ==> final(storeys).all_leds_on(),
            !old(self).on_phase() ==> final(storeys).all_leds_off(),
            final(self).on_phase() == !old(self).on_phase(),
    {
        if self.on_phase {
            storeys.all_on();
        } else {
            storeys.all_off();
        }
        self.on_phase = !self.on_phase;
    }
}

} // verus!
