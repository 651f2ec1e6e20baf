//! Timed playback of a fixed bit-pattern across the storey LEDs.
//!
//! Two modes: a single pass at a fixed per-row cadence, repeated forever,
//! and a drift-corrected back-and-forth double pass synchronized to a total
//! period. The back-and-forth mode anchors every row to an absolute
//! deadline — start plus row index times row duration — instead of sleeping
//! a relative delay per row, so per-row processing time cannot accumulate
//! into timing error. The caller owns the clock and the suspensions: each
//! step applies one row and returns how long to suspend.

use vstd::arithmetic::div_mod::{
    lemma_fundamental_div_mod, lemma_mod_bound, lemma_mod_self_0, lemma_small_mod,
};
use vstd::prelude::*;

use crate::led::{row_bit, Storeys, STOREY_LEDS};

verus! {

/// The fixed per-row delay of the single-pass mode, in milliseconds.
pub const ROW_DELAY_MS: u64 = 5;

/// The additional delay between two passes of the single-pass mode, in
/// milliseconds.
pub const IMAGE_DELAY_MS: u64 = 30;

/// The pattern row shown at step `k` of a back-and-forth double pass over a
/// pattern of length `len`: the pattern in order, then the pattern
/// reversed.
pub open spec fn back_and_forth_index(len: int, k: int) -> int {
    if k < len {
        k
    } else {
        2 * len - 1 - k
    }
}

/// The duration of one row of a back-and-forth double pass that must fill
/// the total period: half the period, split evenly over the rows.
pub open spec fn spec_row_duration(period: int, len: int) -> int {
    (period / 2) / len
}

/// The double pass fills the total period to within the rounding loss of
/// splitting it: `2 * len` rows of the computed row duration never exceed
/// the period, and fall short of it by less than `2 * len` counts. Each
/// row's deadline sits exactly one row duration after the previous one, so
/// the `k`-th row is shown at start plus `k` row durations.
pub proof fn lemma_schedule_total(period: int, len: int)
    requires
        len >= 1,
        period >= 0,
    ensures
        0 <= 2 * len * spec_row_duration(period, len) <= period,
        period - 2 * len * spec_row_duration(period, len) < 2 * len,
{
    let half = period / 2;
    let rd = half / len;
    lemma_fundamental_div_mod(period, 2);
    lemma_mod_bound(period, 2);
    lemma_fundamental_div_mod(half, len);
    lemma_mod_bound(half, len);
    assert(half == len * rd + half % len);
    assert(period == 2 * (len * rd + half % len) + period % 2);
    assert(2 * (len * rd) == 2 * len * rd) by (nonlinear_arith);
    assert(len * rd >= 0) by (nonlinear_arith)
        requires
            len >= 1,
            rd >= 0,
            half >= len * rd,
            half % len < len,
    ;
}

/// The instant at which the next row starts when the caller suspends
/// exactly as told: the absolute deadline of the next row when the current
/// one finished within its budget, and the current instant itself (no
/// suspension at all) when it overran.
pub open spec fn next_on_schedule(start: int, rd: int, k: int, now: int) -> int {
    if start + (k + 1) * rd >= now {
        start + (k + 1) * rd
    } else {
        now
    }
}

/// The instant at which row `k` starts when every suspension is followed
/// exactly and the rows' own work takes no time.
pub open spec fn row_start_instant(start: int, rd: int, k: int) -> int
    decreases k,
{
    if k <= 0 {
        start
    } else {
        next_on_schedule(start, rd, k - 1, row_start_instant(start, rd, k - 1))
    }
}

/// Following the suspensions, every row starts exactly at its absolute
/// deadline of start plus its index times the row duration: the schedule is
/// anchored, not accumulated.
pub proof fn lemma_rows_start_at_their_deadlines(start: int, rd: int, k: int)
    requires
        rd >= 0,
        k >= 0,
    ensures
        row_start_instant(start, rd, k) == start + k * rd,
    decreases k,
{
    if k > 0 {
        lemma_rows_start_at_their_deadlines(start, rd, k - 1);
        assert((k - 1) * rd + rd == k * rd) by (nonlinear_arith);
    } else {
        assert(k * rd == 0) by (nonlinear_arith)
            requires
                k == 0,
        ;
    }
}

/// Following the suspensions, the whole double pass of `2 * len` rows ends
/// at most the period after its start, and short of that by less than
/// `2 * len` counts.
pub proof fn lemma_double_pass_fills_the_period(start: int, period: int, len: int)
    requires
        len >= 1,
        period >= 0,
    ensures
        ({
            let done = row_start_instant(start, spec_row_duration(period, len), 2 * len);
            start <= done <= start + period && start + period - done < 2 * len
        }),
{
    let rd = spec_row_duration(period, len);
    lemma_schedule_total(period, len);
    lemma_rows_start_at_their_deadlines(start, rd, 2 * len);
}

/// Repeats a fixed-length pattern row by row at a fixed cadence.
#[derive(Debug)]
pub struct SinglePassPlayer {
    pattern: Vec<u8>,
    next: usize,
}

impl SinglePassPlayer {
    /// The rows of the pattern, in display order.
    pub closed spec fn pattern(self) -> Seq<u8> {
        self.pattern@
    }

    /// The row the next step will display.
    pub closed spec fn next_row(self) -> int {
        self.next as int
    }

    pub open spec fn wf(self) -> bool {
        &&& self.pattern().len() >= 1
        &&& 0 <= self.next_row() < self.pattern().len()
    }

    pub fn new(pattern: Vec<u8>) -> (p: Self)
        requires
            pattern@.len() >= 1,
        ensures
            p.wf(),
            p.pattern() == pattern@,
            p.next_row() == 0,
    {
        Self { pattern, next: 0 }
    }

    /// Displays the next row; the caller then suspends for the fixed row
    /// delay, plus the inter-image delay when the pass wrapped around.
    pub fn step(&mut self, storeys: &mut Storeys) -> (wrapped: bool)
        requires
            old(self).wf(),
        ensures
            final(self).wf(),
            final(self).pattern() == old(self).pattern(),
            forall|i: int|
                0 <= i < STOREY_LEDS ==> final(storeys).led_on(i) == row_bit(
                    old(self).pattern()[old(self).next_row()],
                    i,
                ),
            final(self).next_row() == (old(self).next_row() + 1) % (old(
                self,
            ).pattern().len() as int),
            wrapped == (old(self).next_row() == old(self).pattern().len() - 1),
    {
        let len = self.pattern.len();
        let row = self.pattern[self.next];
        storeys.set_pattern(row);
        self.next = self.next + 1;
        proof {
            if self.next == len {
                lemma_mod_self_0(len as int);
            } else {
                lemma_small_mod(self.next as nat, len as nat);
            }
        }
        if self.next == len {
            self.next = 0;
            true
        } else {
            false
        }
    }
}

/// Displays a pattern forward and then reversed, each row anchored to an
/// absolute deadline derived from a total period, so that accumulated
/// per-row drift is corrected at every step.
#[derive(Debug)]
pub struct BackAndForthPlayer {
    pattern: Vec<u8>,
    period_ms: u64,
    row_ms: u64,
    start_ms: u64,
    next: usize,
}

impl BackAndForthPlayer {
    /// The rows of the pattern, in forward order.
    pub closed spec fn pattern(self) -> Seq<u8> {
        self.pattern@
    }

    /// The total period the double pass must fill, in milliseconds.
    pub closed spec fn period_ms(self) -> int {
        self.period_ms as int
    }

    /// The duration of one row, in milliseconds.
    pub closed spec fn row_ms(self) -> int {
        self.row_ms as int
    }

    /// The recorded start of the double pass, in milliseconds.
    pub closed spec fn start_ms(self) -> int {
        self.start_ms as int
    }

    /// How many rows have been displayed; the step index of the next row.
    pub closed spec fn next_index(self) -> int {
        self.next as int
    }

    pub open spec fn wf(self) -> bool {
        &&& self.pattern().len() >= 1
        &&& 2 * self.pattern().len() <= usize::MAX
        &&& self.row_ms() == spec_row_duration(self.period_ms(), self.pattern().len() as int)
        &&& self.start_ms() + self.period_ms() <= u64::MAX
        &&& 0 <= self.next_index() <= 2 * self.pattern().len()
    }

    /// Whether both passes are done.
    pub open spec fn spec_finished(self) -> bool {
        self.next_index() == 2 * self.pattern().len()
    }

    /// Records the start of a double pass over `pattern` that must fill
    /// `period_ms`, starting at `start_ms` of the monotonic clock.
    pub fn new(pattern: Vec<u8>, period_ms: u64, start_ms: u64) -> (p: Self)
        requires
            pattern@.len() >= 1,
            2 * pattern@.len() <= usize::MAX,
            start_ms + period_ms <= u64::MAX,
        ensures
            p.wf(),
            p.pattern() == pattern@,
            p.period_ms() == period_ms,
            p.start_ms() == start_ms,
            p.next_index() == 0,
            !p.spec_finished(),
    {
        let half_period = period_ms / 2;
        let row_ms = half_period / (pattern.len() as u64);
        Self { pattern, period_ms, row_ms, start_ms, next: 0 }
    }

    pub fn is_finished(&self) -> (b: bool)
        requires
            self.wf(),
        ensures
            b == self.spec_finished(),
    {
        self.next == 2 * self.pattern.len()
    }

    /// Displays the row of the current step and returns how long to
    /// suspend: the time remaining until the next absolute deadline, one
    /// row duration after this row's own deadline of start plus step index
    /// times row duration.
    ///
    /// When the caller is on schedule, now plus the returned delay is
    /// exactly the next deadline, whatever work the row took: drift does
    /// not accumulate. When the row overran its budget, the returned delay
    /// is zero — the playback continues immediately and never blocks
    /// backward in time.
    pub fn step(&mut self, storeys: &mut Storeys, now_ms: u64) -> (remaining_ms: u64)
        requires
            old(self).wf(),
            !old(self).spec_finished(),
            old(self).start_ms() <= now_ms,
        ensures
            final(self).wf(),
            final(self).pattern() == old(self).pattern(),
            final(self).period_ms() == old(self).period_ms(),
            final(self).row_ms() == old(self).row_ms(),
            final(self).start_ms() == old(self).start_ms(),
            final(self).next_index() == old(self).next_index() + 1,
            forall|i: int|
                0 <= i < STOREY_LEDS ==> final(storeys).led_on(i) == row_bit(
                    old(self).pattern()[back_and_forth_index(
                        old(self).pattern().len() as int,
                        old(self).next_index(),
                    )],
                    i,
                ),
            remaining_ms == if old(self).start_ms() + (old(self).next_index() + 1) * old(
                self,
            ).row_ms() >= now_ms {
                old(self).start_ms() + (old(self).next_index() + 1) * old(self).row_ms() - now_ms
            } else {
                0
            },
            now_ms <= old(self).start_ms() + (old(self).next_index() + 1) * old(self).row_ms()
                ==> now_ms + remaining_ms == old(self).start_ms() + (old(self).next_index() + 1)
                * old(self).row_ms(),
    {
        let len = self.pattern.len();
        let k = self.next;
        let idx = if k < len {
            k
        } else {
            2 * len - 1 - k
        };
        let row = self.pattern[idx];
        storeys.set_pattern(row);
        proof {
            lemma_schedule_total(self.period_ms(), self.pattern().len() as int);
            assert((k + 1) * self.row_ms() <= 2 * (len as int) * self.row_ms()) by (nonlinear_arith)
                requires
                    0 <= self.row_ms(),
                    k + 1 <= 2 * (len as int),
            ;
        }
        let deadline = self.start_ms + ((k as u64) + 1) * self.row_ms;
        let remaining = if deadline > now_ms {
            deadline - now_ms
        } else {
            0
        };
        self.next = k + 1;
        remaining
    }
}

} // verus!
