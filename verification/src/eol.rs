//! End-of-line test orchestration.
//!
//! Two waiting phases, strictly in order: the cycle animation runs while
//! the button confirmation is awaited, then the blink animation runs while
//! the shake confirmation is awaited. Each phase is a race between an
//! animation that never completes on its own and the confirmation signal,
//! so the race always resolves via the confirmation; the abandoned
//! animation's partial output state is left exactly as it stands. After the
//! second confirmation the orchestrator finalizes: the whole bank and the
//! dedicated "done" LED are switched on.

use vstd::prelude::*;

use crate::led::Storeys;
use crate::switch::LowActiveSwitch;

verus! {

/// The cadence of both animations while their phase waits, in milliseconds.
pub const EOL_STEP_MS: u64 = 500;

/// The strictly sequential phases of the end-of-line test.
#[derive(Clone, Copy, PartialEq, Eq, Structural, Debug)]
pub enum EolPhase {
    /// Cycling the storey LEDs, waiting for the button confirmation.
    CycleCheck,
    /// Blinking the storey LEDs, waiting for the shake confirmation.
    BlinkCheck,
    /// Finalized: all storey LEDs and the done LED are on.
    Done,
}

/// Sequences the two waiting phases of the end-of-line test and finalizes
/// the outputs; the caller runs the races and reports each confirmation.
#[derive(Clone, Copy, PartialEq, Eq, Structural, Debug)]
pub struct EolTest {
    phase: EolPhase,
}

impl EolTest {
    pub closed spec fn phase(self) -> EolPhase {
        self.phase
    }

    /// Starts in the first waiting phase; the caller clears any stale
    /// confirmation before waiting.
    pub fn new() -> (t: Self)
        ensures
            t.phase() == EolPhase::CycleCheck,
    {
        Self { phase: EolPhase::CycleCheck }
    }

    /// Whether the test has finalized.
    pub fn is_done(&self) -> (b: bool)
        ensures
            b == (self.phase() == EolPhase::Done),
    {
        matches!(self.phase, EolPhase::Done)
    }

    /// The current phase's confirmation arrived and its race resolved; the
    /// losing animation is abandoned.
    ///
    /// Abandoning the cycle animation leaves every output exactly as the
    /// animation left it — whatever was lit stays lit until the next phase
    /// overwrites it. The second confirmation finalizes: the whole bank and
    /// the done LED go on. A confirmation after finalization changes
    /// nothing.
    pub fn on_confirmed(&mut self, storeys: &mut Storeys, finished_led: &mut LowActiveSwitch)
        ensures
            match old(self).phase() {
                EolPhase::CycleCheck => {
                    &&& final(self).phase() == EolPhase::BlinkCheck
                    &&& *final(storeys) == *old(storeys)
                    &&& *final(finished_led) == *old(finished_led)
                },
                EolPhase::BlinkCheck => {
                    &&& final(self).phase() == EolPhase::Done
                    &&& final(storeys).all_leds_on()
                    &&& final(finished_led).is_on()
                },
                EolPhase::Done => {
                    &&& final(self).phase() == EolPhase::Done
                    &&& *final(storeys) == *old(storeys)
                    &&& *final(finished_led) == *old(finished_led)
                },
            },
    {
        match self.phase {
            EolPhase::CycleCheck => {
                self.phase = EolPhase::BlinkCheck;
            },
            EolPhase::BlinkCheck => {
                storeys.all_on();
                finished_led.switch_on();
                self.phase = EolPhase::Done;
            },
            EolPhase::Done => {},
        }
    }
}

} // verus!
