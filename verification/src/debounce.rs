//! Debounced press detection.
//!
//! A confirmed press is the fixed sequence high → settle delay → low →
//! settle delay → high on a noisy mechanical input: any detected edge plus a
//! quiet window counts as debounced. The detector is a linear state machine
//! driven by the events the platform layer reports (edge waits completing,
//! the settle delay running out); a counter aggregates a fixed number of
//! confirmed presses into one completion.

use vstd::prelude::*;

verus! {

/// The settle delay after an edge, in milliseconds: assumed longer than the
/// mechanical bounce of the input.
pub const DEBOUNCE_DELAY_MS: u64 = 100;

/// An input event as the platform layer reports it.
#[derive(Clone, Copy, PartialEq, Eq, Structural, Debug)]
pub enum PressEvent {
    /// The line went (or was found) high.
    WentHigh,
    /// The line went low.
    WentLow,
    /// The settle delay ran out.
    SettleElapsed,
}

/// What the detector is waiting for next.
#[derive(Clone, Copy, PartialEq, Eq, Structural, Debug)]
pub enum PressWait {
    /// Await the line going high.
    High,
    /// Await the line going low.
    Low,
    /// Await the settle delay.
    Settle,
}

/// The linear phases of one debounced press.
#[derive(Clone, Copy, PartialEq, Eq, Structural, Debug)]
pub enum PressPhase {
    /// Waiting for the line to go high.
    AwaitHigh,
    /// Waiting out the settle delay after the high edge.
    SettleAfterHigh,
    /// Waiting for the line to go low.
    AwaitLow,
    /// Waiting out the settle delay after the low edge.
    SettleAfterLow,
    /// Waiting for the line to go high again: the confirming edge.
    AwaitConfirm,
    /// A full debounced press has been seen.
    Confirmed,
}

/// One transition of the press detector: the phase advances exactly when
/// the event is the one the phase waits for; any other event is noise the
/// platform layer would not report, and changes nothing.
pub open spec fn press_step(p: PressPhase, ev: PressEvent) -> PressPhase {
    match (p, ev) {
        (PressPhase::AwaitHigh, PressEvent::WentHigh) => PressPhase::SettleAfterHigh,
        (PressPhase::SettleAfterHigh, PressEvent::SettleElapsed) => PressPhase::AwaitLow,
        (PressPhase::AwaitLow, PressEvent::WentLow) => PressPhase::SettleAfterLow,
        (PressPhase::SettleAfterLow, PressEvent::SettleElapsed) => PressPhase::AwaitConfirm,
        (PressPhase::AwaitConfirm, PressEvent::WentHigh) => PressPhase::Confirmed,
        (_, _) => p,
    }
}

/// The detector's phase after a whole sequence of events.
pub open spec fn press_run(p: PressPhase, evs: Seq<PressEvent>) -> PressPhase
    decreases evs.len(),
{
    if evs.len() == 0 {
        p
    } else {
        press_step(press_run(p, evs.drop_last()), evs.last())
    }
}

/// Appending one event to a run steps the run's result once.
pub proof fn lemma_press_run_snoc(p: PressPhase, evs: Seq<PressEvent>, ev: PressEvent)
    ensures
        press_run(p, evs.push(ev)) == press_step(press_run(p, evs), ev),
{
    assert(evs.push(ev).drop_last() =~= evs);
    assert(evs.push(ev).last() == ev);
}

/// The canonical clean press: rising edge, settle, falling edge, settle,
/// confirming rising edge.
pub open spec fn clean_press_events() -> Seq<PressEvent> {
    seq![
        PressEvent::WentHigh,
        PressEvent::SettleElapsed,
        PressEvent::WentLow,
        PressEvent::SettleElapsed,
        PressEvent::WentHigh,
    ]
}

/// Fed the clean press sequence, the detector confirms exactly at the final
/// rising edge, and at no earlier point.
pub proof fn lemma_one_press_confirms_at_final_edge()
    ensures
        press_run(PressPhase::AwaitHigh, clean_press_events()) == PressPhase::Confirmed,
        forall|k: int|
            0 <= k < clean_press_events().len() ==> press_run(
                PressPhase::AwaitHigh,
                #[trigger] clean_press_events().take(k),
            ) != PressPhase::Confirmed,
{
    let e = clean_press_events();
    assert(e.take(0) =~= Seq::<PressEvent>::empty());
    assert(e.take(1) =~= e.take(0).push(e[0]));
    lemma_press_run_snoc(PressPhase::AwaitHigh, e.take(0), e[0]);
    assert(e.take(2) =~= e.take(1).push(e[1]));
    lemma_press_run_snoc(PressPhase::AwaitHigh, e.take(1), e[1]);
    assert(e.take(3) =~= e.take(2).push(e[2]));
    lemma_press_run_snoc(PressPhase::AwaitHigh, e.take(2), e[2]);
    assert(e.take(4) =~= e.take(3).push(e[3]));
    lemma_press_run_snoc(PressPhase::AwaitHigh, e.take(3), e[3]);
    assert(e.take(5) =~= e.take(4).push(e[4]));
    lemma_press_run_snoc(PressPhase::AwaitHigh, e.take(4), e[4]);
    assert(e =~= e.take(5));
}

/// Produces one clean "confirmed press" event from a noisy input.
#[derive(Clone, Copy, PartialEq, Eq, Structural, Debug)]
pub struct PressDetector {
    phase: PressPhase,
}

impl PressDetector {
    pub closed spec fn phase(self) -> PressPhase {
        self.phase
    }

    pub fn new() -> (d: Self)
        ensures
            d.phase() == PressPhase::AwaitHigh,
    {
        Self { phase: PressPhase::AwaitHigh }
    }

    /// What to await next; `None` once the press is confirmed.
    pub fn expected_wait(&self) -> (w: Option<PressWait>)
        ensures
            w == match self.phase() {
                PressPhase::AwaitHigh => Some(PressWait::High),
                PressPhase::SettleAfterHigh => Some(PressWait::Settle),
                PressPhase::AwaitLow => Some(PressWait::Low),
                PressPhase::SettleAfterLow => Some(PressWait::Settle),
                PressPhase::AwaitConfirm => Some(PressWait::High),
                PressPhase::Confirmed => None::<PressWait>,
            },
    {
        match self.phase {
            PressPhase::AwaitHigh => Some(PressWait::High),
            PressPhase::SettleAfterHigh => Some(PressWait::Settle),
            PressPhase::AwaitLow => Some(PressWait::Low),
            PressPhase::SettleAfterLow => Some(PressWait::Settle),
            PressPhase::AwaitConfirm => Some(PressWait::High),
            PressPhase::Confirmed => None,
        }
    }

    /// Whether a full debounced press has been seen.
    pub fn is_confirmed(&self) -> (b: bool)
        ensures
            b == (self.phase() == PressPhase::Confirmed),
    {
        matches!(self.phase, PressPhase::Confirmed)
    }

    /// Feeds one event to the detector.
    pub fn on_event(&mut self, ev: PressEvent)
        ensures
            final(self).phase() == press_step(old(self).phase(), ev),
    {
        self.phase = match (self.phase, ev) {
            (PressPhase::AwaitHigh, PressEvent::WentHigh) => PressPhase::SettleAfterHigh,
            (PressPhase::SettleAfterHigh, PressEvent::SettleElapsed) => PressPhase::AwaitLow,
            (PressPhase::AwaitLow, PressEvent::WentLow) => PressPhase::SettleAfterLow,
            (PressPhase::SettleAfterLow, PressEvent::SettleElapsed) => PressPhase::AwaitConfirm,
            (PressPhase::AwaitConfirm, PressEvent::WentHigh) => PressPhase::Confirmed,
            (p, _) => p,
        };
    }

    /// Starts over, awaiting the next press.
    pub fn reset(&mut self)
        ensures
            final(self).phase() == PressPhase::AwaitHigh,
    {
        self.phase = PressPhase::AwaitHigh;
    }
}

/// One transition of the press counter: the detector steps, and each
/// confirmed press restarts it and is counted, up to the target.
pub open spec fn count_step(phase: PressPhase, done: int, target: int, ev: PressEvent) -> (
    PressPhase,
    int,
) {
    let stepped = press_step(phase, ev);
    if stepped == PressPhase::Confirmed && done < target {
        (PressPhase::AwaitHigh, done + 1)
    } else {
        (stepped, done)
    }
}

/// The counter's state after a whole sequence of events, starting from a
/// fresh detector and `done` counted presses.
pub open spec fn count_run(phase: PressPhase, done: int, target: int, evs: Seq<PressEvent>) -> (
    PressPhase,
    int,
)
    decreases evs.len(),
{
    if evs.len() == 0 {
        (phase, done)
    } else {
        let prev = count_run(phase, done, target, evs.drop_last());
        count_step(prev.0, prev.1, target, evs.last())
    }
}

/// Appending one event to a counted run steps the run's result once.
pub proof fn lemma_count_run_snoc(
    phase: PressPhase,
    done: int,
    target: int,
    evs: Seq<PressEvent>,
    ev: PressEvent,
)
    ensures
        count_run(phase, done, target, evs.push(ev)) == count_step(
            count_run(phase, done, target, evs).0,
            count_run(phase, done, target, evs).1,
            target,
            ev,
        ),
{
    assert(evs.push(ev).drop_last() =~= evs);
    assert(evs.push(ev).last() == ev);
}

/// Three clean presses in a row.
pub open spec fn three_clean_presses() -> Seq<PressEvent> {
    clean_press_events() + clean_press_events() + clean_press_events()
}

/// A target of three presses needs exactly three complete debounce
/// sequences: the full input counts three, and every proper prefix — two
/// and a half sequences included — counts fewer.
pub proof fn lemma_three_presses_need_three_sequences()
    ensures
        count_run(PressPhase::AwaitHigh, 0, 3, three_clean_presses()).1 == 3,
        forall|k: int|
            0 <= k < three_clean_presses().len() ==> count_run(
                PressPhase::AwaitHigh,
                0,
                3,
                #[trigger] three_clean_presses().take(k),
            ).1 < 3,
{
    let e = three_clean_presses();
    lemma_press_count_state_chain(15);
    assert(e.take(15) =~= e);
    assert forall|k: int| 0 <= k < 15 implies count_run(
        PressPhase::AwaitHigh,
        0,
        3,
        #[trigger] e.take(k),
    ).1 < 3 by {
        lemma_press_count_state_chain(k);
    }
}

/// After `k` of the events of three clean presses, the counter's state is
/// the one `spec_press_count_state` gives.
pub proof fn lemma_press_count_state_chain(k: int)
    requires
        0 <= k <= 15,
    ensures
        count_run(PressPhase::AwaitHigh, 0, 3, three_clean_presses().take(k))
            == spec_press_count_state(k),
    decreases k,
{
    let e = three_clean_presses();
    assert(e =~= seq![
        PressEvent::WentHigh,
        PressEvent::SettleElapsed,
        PressEvent::WentLow,
        PressEvent::SettleElapsed,
        PressEvent::WentHigh,
        PressEvent::WentHigh,
        PressEvent::SettleElapsed,
        PressEvent::WentLow,
        PressEvent::SettleElapsed,
        PressEvent::WentHigh,
        PressEvent::WentHigh,
        PressEvent::SettleElapsed,
        PressEvent::WentLow,
        PressEvent::SettleElapsed,
        PressEvent::WentHigh,
    ]);
    if k == 0 {
        assert(e.take(0) =~= Seq::<PressEvent>::empty());
    } else {
        lemma_press_count_state_chain(k - 1);
        assert(e.take(k) =~= e.take(k - 1).push(e[k - 1]));
        lemma_count_run_snoc(PressPhase::AwaitHigh, 0, 3, e.take(k - 1), e[k - 1]);
    }
}

/// The counter's state after `k` events of three clean presses: the phase
/// walks the five press phases and the count rises by one per full press.
pub open spec fn spec_press_count_state(k: int) -> (PressPhase, int) {
    let within = if k % 5 == 0 {
        PressPhase::AwaitHigh
    } else if k % 5 == 1 {
        PressPhase::SettleAfterHigh
    } else if k % 5 == 2 {
        PressPhase::AwaitLow
    } else if k % 5 == 3 {
        PressPhase::SettleAfterLow
    } else {
        PressPhase::AwaitConfirm
    };
    (within, k / 5)
}

/// Aggregates a fixed number of confirmed presses into one completion.
#[derive(Clone, Copy, PartialEq, Eq, Structural, Debug)]
pub struct PressCounter {
    target: usize,
    done: usize,
    detector: PressDetector,
}

impl PressCounter {
    /// How many presses complete the counter.
    pub closed spec fn target(self) -> int {
        self.target as int
    }

    /// How many presses have been counted so far.
    pub closed spec fn done(self) -> int {
        self.done as int
    }

    /// The phase of the press currently being detected.
    pub closed spec fn phase(self) -> PressPhase {
        self.detector.phase()
    }

    pub open spec fn wf(self) -> bool {
        0 <= self.done() <= self.target()
    }

    pub fn new(target: usize) -> (c: Self)
        ensures
            c.wf(),
            c.target() == target,
            c.done() == 0,
            c.phase() == PressPhase::AwaitHigh,
    {
        Self { target, done: 0, detector: PressDetector::new() }
    }

    /// Feeds one event: steps the detector, counting and restarting it on
    /// each confirmed press until the target is reached.
    pub fn on_event(&mut self, ev: PressEvent)
        requires
            old(self).wf(),
        ensures
            final(self).wf(),
            final(self).target() == old(self).target(),
            (final(self).phase(), final(self).done()) == count_step(
                old(self).phase(),
                old(self).done(),
                old(self).target(),
                ev,
            ),
    {
        self.detector.on_event(ev);
        if self.detector.is_confirmed() && self.done < self.target {
            self.detector.reset();
            self.done = self.done + 1;
        }
    }

    /// Whether the target number of presses has been seen; the caller then
    /// emits its completion signal and resets.
    pub fn is_complete(&self) -> (b: bool)
        ensures
            b == (self.done() == self.target()),
    {
        self.done == self.target
    }

    /// What the current press detection waits for next.
    pub fn expected_wait(&self) -> (w: Option<PressWait>)
        ensures
            w == match self.phase() {
                PressPhase::AwaitHigh => Some(PressWait::High),
                PressPhase::SettleAfterHigh => Some(PressWait::Settle),
                PressPhase::AwaitLow => Some(PressWait::Low),
                PressPhase::SettleAfterLow => Some(PressWait::Settle),
                PressPhase::AwaitConfirm => Some(PressWait::High),
                PressPhase::Confirmed => None::<PressWait>,
            },
    {
        self.detector.expected_wait()
    }

    /// Starts the next round of counting.
    pub fn reset(&mut self)
        ensures
            final(self).wf(),
            final(self).target() == old(self).target(),
            final(self).done() == 0,
            final(self).phase() == PressPhase::AwaitHigh,
    {
        self.done = 0;
        self.detector.reset();
    }
}

} // verus!
