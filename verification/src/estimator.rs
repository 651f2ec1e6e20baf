//! Inter-edge period estimation.
//!
//! Qualifying edge timestamps (in milliseconds of a monotonic clock) are
//! recorded into a bounded ring history, oldest evicted first. Whenever at
//! least two samples are present, the estimate is the arithmetic mean of the
//! forward differences of consecutive samples, oldest to newest.

use vstd::arithmetic::div_mod::lemma_div_non_zero;
use vstd::prelude::*;

verus! {

/// How many edge timestamps the history retains.
pub const EDGE_HISTORY_CAPACITY: usize = 6;

/// The settle delay after a qualifying edge, in milliseconds: a best-effort
/// rejection of the remaining bounce edges of the same activation before
/// waiting for the next edge.
pub const EDGE_SETTLE_DELAY_MS: u64 = 150;

/// Whether the timestamps of `s` are strictly increasing.
pub open spec fn strictly_increasing(s: Seq<u64>) -> bool {
    forall|i: int, j: int| 0 <= i < j < s.len() ==> s[i] < s[j]
}

/// The history after recording `t`: appended, evicting the oldest sample
/// when the history is full.
pub open spec fn after_record(s: Seq<u64>, t: u64) -> Seq<u64> {
    if s.len() < EDGE_HISTORY_CAPACITY {
        s.push(t)
    } else {
        s.drop_first().push(t)
    }
}

/// The sum of the forward differences of consecutive samples of `s`.
pub open spec fn sum_diffs(s: Seq<u64>) -> int
    decreases s.len(),
{
    if s.len() < 2 {
        0
    } else {
        sum_diffs(s.drop_last()) + (s[s.len() - 1] - s[s.len() - 2])
    }
}

/// The mean forward difference of consecutive samples of `s`; meaningful
/// only when `s` holds at least two samples.
pub open spec fn mean_period(s: Seq<u64>) -> int {
    sum_diffs(s) / (s.len() - 1)
}

/// The consecutive forward differences telescope: their sum is the spread
/// between the newest and the oldest sample.
pub proof fn lemma_sum_diffs_telescopes(s: Seq<u64>)
    requires
        s.len() >= 1,
    ensures
        sum_diffs(s) == s.last() - s.first(),
    decreases s.len(),
{
    if s.len() >= 2 {
        lemma_sum_diffs_telescopes(s.drop_last());
        assert(s.drop_last().last() == s[s.len() - 2]);
        assert(s.drop_last().first() == s.first());
    }
}

/// Strictly increasing samples are spread at least one count per step.
pub proof fn lemma_spread_at_least_len(s: Seq<u64>)
    requires
        strictly_increasing(s),
        s.len() >= 1,
    ensures
        s.last() - s.first() >= s.len() - 1,
    decreases s.len(),
{
    if s.len() >= 2 {
        lemma_spread_at_least_len(s.drop_last());
        assert(s.drop_last().last() == s[s.len() - 2]);
        assert(s[s.len() - 2] < s[s.len() - 1]);
    }
}

/// Given strictly increasing timestamps and at least two samples, the mean
/// period is strictly positive.
pub proof fn lemma_mean_period_positive(s: Seq<u64>)
    requires
        strictly_increasing(s),
        s.len() >= 2,
    ensures
        mean_period(s) >= 1,
{
    lemma_sum_diffs_telescopes(s);
    lemma_spread_at_least_len(s);
    lemma_div_non_zero(sum_diffs(s), s.len() - 1);
}

/// Recording into a full history of strictly increasing samples drops the
/// oldest sample: it is absent from the resulting window.
pub proof fn lemma_record_evicts_oldest(s: Seq<u64>, t: u64)
    requires
        strictly_increasing(s),
        s.len() == EDGE_HISTORY_CAPACITY,
        t > s.last(),
    ensures
        !after_record(s, t).contains(s.first()),
{
    let w = after_record(s, t);
    assert forall|i: int| 0 <= i < w.len() implies w[i] != s.first() by {
        if i < w.len() - 1 {
            assert(w[i] == s[i + 1]);
            assert(s.first() < s[i + 1]);
        } else {
            assert(w[i] == t);
            assert(s.first() <= s.last());
        }
    }
}

/// A fixed-capacity ring buffer of edge timestamps, insertion-ordered,
/// oldest evicted first when full. The timestamps are strictly increasing.
#[derive(Clone, Copy, Debug)]
pub struct EdgeHistory {
    entries: [u64; EDGE_HISTORY_CAPACITY],
    head: usize,
    len: usize,
}

impl EdgeHistory {
    /// The recorded timestamps, oldest first.
    pub closed spec fn timestamps(self) -> Seq<u64> {
        Seq::new(
            self.len as nat,
            |i: int| self.entries@[(self.head + i) % (EDGE_HISTORY_CAPACITY as int)],
        )
    }

    pub closed spec fn wf(self) -> bool {
        &&& self.head < EDGE_HISTORY_CAPACITY
        &&& self.len <= EDGE_HISTORY_CAPACITY
        &&& strictly_increasing(self.timestamps())
    }

    pub fn new() -> (h: Self)
        ensures
            h.wf(),
            h.timestamps() == Seq::<u64>::empty(),
    {
        let h = Self { entries: [0u64; EDGE_HISTORY_CAPACITY], head: 0, len: 0 };
        proof {
            assert(h.timestamps() =~= Seq::<u64>::empty());
        }
        h
    }

    /// How many timestamps are currently retained; never more than the
    /// capacity.
    pub fn len(&self) -> (n: usize)
        requires
            self.wf(),
        ensures
            n == self.timestamps().len(),
            n <= EDGE_HISTORY_CAPACITY,
    {
        self.len
    }

    /// The newest recorded timestamp.
    pub fn newest(&self) -> (t: u64)
        requires
            self.wf(),
            self.timestamps().len() > 0,
        ensures
            t == self.timestamps().last(),
    {
        self.entries[(self.head + self.len - 1) % EDGE_HISTORY_CAPACITY]
    }

    /// The timestamp at position `i`, oldest first.
    pub fn get(&self, i: usize) -> (t: u64)
        requires
            self.wf(),
            i < self.timestamps().len(),
        ensures
            t == self.timestamps()[i as int],
    {
        self.entries[(self.head + i) % EDGE_HISTORY_CAPACITY]
    }

    /// Records `t`, evicting the oldest timestamp if the history is full.
    pub fn write(&mut self, t: u64)
        requires
            old(self).wf(),
            old(self).timestamps().len() == 0 || t > old(self).timestamps().last(),
        ensures
            final(self).wf(),
            final(self).timestamps() == after_record(old(self).timestamps(), t),
    {
        let ghost prior = self.timestamps();
        if self.len < EDGE_HISTORY_CAPACITY {
            let idx = (self.head + self.len) % EDGE_HISTORY_CAPACITY;
            self.entries[idx] = t;
            self.len = self.len + 1;
            proof {
                assert(self.timestamps() =~= prior.push(t));
            }
        } else {
            self.entries[self.head] = t;
            self.head = (self.head + 1) % EDGE_HISTORY_CAPACITY;
            proof {
                assert forall|i: int| 0 <= i < self.timestamps().len() implies self.timestamps()[i]
                    == prior.drop_first().push(t)[i] by {
                    if i < EDGE_HISTORY_CAPACITY - 1 {
                        assert((old(self).head + (i + 1)) % (EDGE_HISTORY_CAPACITY as int) == (
                        self.head + i) % (EDGE_HISTORY_CAPACITY as int));
                    } else {
                        assert((self.head + i) % (EDGE_HISTORY_CAPACITY as int) == old(self).head);
                    }
                }
                assert(self.timestamps() =~= prior.drop_first().push(t));
            }
        }
        proof {
            let cur = self.timestamps();
            assert(cur == after_record(prior, t));
            assert forall|i: int, j: int| 0 <= i < j < cur.len() implies cur[i] < cur[j] by {
                if prior.len() < EDGE_HISTORY_CAPACITY {
                    if j == cur.len() - 1 {
                        assert(cur[j] == t);
                        assert(cur[i] == prior[i]);
                        if i < prior.len() - 1 {
                            assert(prior[i] < prior.last());
                        }
                    }
                } else {
                    if j == cur.len() - 1 {
                        assert(cur[j] == t);
                        assert(cur[i] == prior[i + 1]);
                        if i + 1 < prior.len() - 1 {
                            assert(prior[i + 1] < prior.last());
                        }
                    } else {
                        assert(cur[i] == prior[i + 1]);
                        assert(cur[j] == prior[j + 1]);
                    }
                }
            }
        }
    }
}

/// The estimator's one fatal error: a recorded timestamp was not strictly
/// later than the previous one, although the clock is monotonic. Computing
/// a forward difference would be meaningless, so the computation is aborted.
#[derive(Clone, Copy, PartialEq, Eq, Structural, Debug)]
pub enum EstimatorError {
    ArithmeticInvariantViolation,
}

/// Converts a stream of qualifying edge timestamps into a smoothed period
/// estimate: the mean forward difference over the retained window.
#[derive(Clone, Copy, Debug)]
pub struct PeriodEstimator {
    history: EdgeHistory,
}

impl PeriodEstimator {
    /// The retained edge timestamps, oldest first.
    pub closed spec fn timestamps(self) -> Seq<u64> {
        self.history.timestamps()
    }

    pub closed spec fn wf(self) -> bool {
        self.history.wf()
    }

    pub fn new() -> (e: Self)
        ensures
            e.wf(),
            e.timestamps() == Seq::<u64>::empty(),
    {
        Self { history: EdgeHistory::new() }
    }

    /// How many edge timestamps are currently retained.
    pub fn sample_count(&self) -> (n: usize)
        requires
            self.wf(),
        ensures
            n == self.timestamps().len(),
    {
        self.history.len()
    }

    /// The mean forward difference over the retained window, summed oldest
    /// to newest over consecutive pairs and divided by the pair count.
    fn mean_of_history(&self) -> (m: u64)
        requires
            self.wf(),
            self.timestamps().len() >= 2,
        ensures
            m == mean_period(self.timestamps()),
    {
        let ghost s = self.timestamps();
        let len = self.history.len();
        let mut sum: u64 = 0;
        let mut i: usize = 1;
        while i < len
            invariant
                self.wf(),
                s == self.timestamps(),
                s.len() == len,
                2 <= len,
                1 <= i <= len,
                sum == sum_diffs(s.take(i as int)),
            decreases len - i,
        {
            let older = self.history.get(i - 1);
            let younger = self.history.get(i);
            proof {
                assert(s[i - 1 as int] < s[i as int]);
                lemma_sum_diffs_telescopes(s.take(i as int));
                assert(s.take(i + 1 as int).drop_last() =~= s.take(i as int));
                assert(sum_diffs(s.take(i + 1 as int)) == sum_diffs(s.take(i as int)) + (s[i as int]
                    - s[i - 1 as int]));
            }
            sum = sum + (younger - older);
            i = i + 1;
        }
        proof {
            assert(s.take(len as int) =~= s);
        }
        sum / ((len - 1) as u64)
    }

    /// Records a qualifying edge at `now_ms` and recomputes the estimate.
    ///
    /// Fails, leaving the history untouched, exactly when `now_ms` is not
    /// strictly later than the newest recorded timestamp. Otherwise the
    /// timestamp is recorded (evicting the oldest when the history is full)
    /// and the new mean period is returned — `None` while fewer than two
    /// samples exist, so no division by zero can arise.
    pub fn record(&mut self, now_ms: u64) -> (r: Result<Option<u64>, EstimatorError>)
        requires
            old(self).wf(),
        ensures
            final(self).wf(),
            r is Err <==> (old(self).timestamps().len() > 0 && now_ms <= old(
                self,
            ).timestamps().last()),
            r is Err ==> final(self).timestamps() == old(self).timestamps() && r->Err_0
                == EstimatorError::ArithmeticInvariantViolation,
            r is Ok ==> final(self).timestamps() == after_record(old(self).timestamps(), now_ms),
            r is Ok ==> ((r->Ok_0 is Some) <==> final(self).timestamps().len() >= 2),
            r matches Ok(Some(m)) ==> m == mean_period(final(self).timestamps()) && m >= 1,
    {
        if self.history.len() > 0 {
            if now_ms <= self.history.newest() {
                return Err(EstimatorError::ArithmeticInvariantViolation);
            }
        }
        self.history.write(now_ms);
        if self.history.len() >= 2 {
            let m = self.mean_of_history();
            proof {
                lemma_mean_period_positive(self.timestamps());
            }
            Ok(Some(m))
        } else {
            Ok(None)
        }
    }
}

} // verus!
