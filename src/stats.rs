//! The statistics of a run as plain values, and what recording a sequence
//! of outcomes yields, in any order.
use vstd::prelude::*;
use crate::outcome::Outcome;

verus! {

/// What `min_duration_ns` holds before any duration has been recorded, so
/// that the first recorded duration always replaces it.
pub const NO_MIN: u64 = 0xffff_ffff_ffff_ffff;

/// What one step of lowering a minimum writes: `val` when it is smaller
/// than the value `seen`, nothing otherwise.
pub open spec fn min_step(seen: u64, val: u64) -> Option<u64> {
    if val < seen {
        Some(val)
    } else {
        None
    }
}

/// What one step of raising a maximum writes: `val` when it is larger than
/// the value `seen`, nothing otherwise.
pub open spec fn max_step(seen: u64, val: u64) -> Option<u64> {
    if val > seen {
        Some(val)
    } else {
        None
    }
}

/// The value held after a step that wrote `w` over `seen`.
pub open spec fn applied(seen: u64, w: Option<u64>) -> u64 {
    match w {
        Some(v) => v,
        None => seen,
    }
}

/// The decision of one step of a minimum update: the value to write over
/// `seen`, if `val` improves on it. The value then held is the smaller of
/// the two; nothing is written when `val` does not improve; any duration
/// below the sentinel `NO_MIN` replaces it.
pub fn min_candidate(seen: u64, val: u64) -> (r: Option<u64>)
    ensures
        r == min_step(seen, val),
        applied(seen, r) == if val < seen {
            val
        } else {
            seen
        },
        r is None <==> val >= seen,
        seen == NO_MIN && val < NO_MIN ==> r == Some(val),
{
    if val < seen {
        Some(val)
    } else {
        None
    }
}

/// The decision of one step of a maximum update: the value to write over
/// `seen`, if `val` improves on it. The value then held is the larger of
/// the two; nothing is written when `val` does not improve; any duration
/// above the initial 0 replaces it.
pub fn max_candidate(seen: u64, val: u64) -> (r: Option<u64>)
    ensures
        r == max_step(seen, val),
        applied(seen, r) == if val > seen {
            val
        } else {
            seen
        },
        r is None <==> val <= seen,
        seen == 0 && val > 0 ==> r == Some(val),
{
    if val > seen {
        Some(val)
    } else {
        None
    }
}

/// Aggregate of the outcomes recorded so far. Sums and counts wrap at 2^64,
/// as the atomic counters they are read from do.
#[derive(Clone, Copy, Debug, PartialEq, Eq, Structural)]
pub struct Stats {
    pub total_duration_ns: u64,
    pub min_duration_ns: u64,
    pub max_duration_ns: u64,
    pub success_count: u64,
    pub failure_count: u64,
}

impl Stats {
    pub open spec fn empty() -> Stats {
        Stats {
            total_duration_ns: 0,
            min_duration_ns: NO_MIN,
            max_duration_ns: 0,
            success_count: 0,
            failure_count: 0,
        }
    }

    /// The statistics after one more outcome.
    pub open spec fn recorded(self, o: Outcome) -> Stats {
        Stats {
            total_duration_ns: self.total_duration_ns.wrapping_add(o.duration_ns),
            min_duration_ns: applied(self.min_duration_ns, min_step(self.min_duration_ns, o.duration_ns)),
            max_duration_ns: applied(self.max_duration_ns, max_step(self.max_duration_ns, o.duration_ns)),
            success_count: if o.is_success() {
                self.success_count.wrapping_add(1)
            } else {
                self.success_count
            },
            failure_count: if o.is_success() {
                self.failure_count
            } else {
                self.failure_count.wrapping_add(1)
            },
        }
    }

    /// Statistics with nothing recorded.
    pub fn new() -> (r: Stats)
        ensures
            r == Stats::empty(),
    {
        Stats {
            total_duration_ns: 0,
            min_duration_ns: NO_MIN,
            max_duration_ns: 0,
            success_count: 0,
            failure_count: 0,
        }
    }

    /// Folds one outcome in.
    pub fn record(&mut self, o: &Outcome)
        ensures
            *final(self) == old(self).recorded(*o),
    {
        self.total_duration_ns = self.total_duration_ns.wrapping_add(o.duration_ns);
        if let Some(v) = min_candidate(self.min_duration_ns, o.duration_ns) {
            self.min_duration_ns = v;
        }
        if let Some(v) = max_candidate(self.max_duration_ns, o.duration_ns) {
            self.max_duration_ns = v;
        }
        match o.classification {
            crate::outcome::Classification::Success(_) => {
                self.success_count = self.success_count.wrapping_add(1);
            },
            crate::outcome::Classification::Failure => {
                self.failure_count = self.failure_count.wrapping_add(1);
            },
        }
    }
}

/// The statistics of the outcomes `s`, recorded one after another.
pub open spec fn summary(s: Seq<Outcome>) -> Stats
    decreases s.len(),
{
    if s.len() == 0 {
        Stats::empty()
    } else {
        summary(s.drop_last()).recorded(s.last())
    }
}

/// The exact sum of the durations in `s`.
pub open spec fn sum_durations(s: Seq<Outcome>) -> nat
    decreases s.len(),
{
    if s.len() == 0 {
        0
    } else {
        sum_durations(s.drop_last()) + s.last().duration_ns as nat
    }
}

/// How many outcomes in `s` are successes.
pub open spec fn successes(s: Seq<Outcome>) -> nat
    decreases s.len(),
{
    if s.len() == 0 {
        0
    } else {
        successes(s.drop_last()) + if s.last().is_success() {
            1nat
        } else {
            0nat
        }
    }
}

/// Records every outcome of `outcomes` in order, starting from nothing.
pub fn summarize(outcomes: &Vec<Outcome>) -> (r: Stats)
    ensures
        r == summary(outcomes@),
{
    let mut st = Stats::new();
    let mut i: usize = 0;
    while i < outcomes.len()
        invariant
            i <= outcomes@.len(),
            st == summary(outcomes@.subrange(0, i as int)),
        decreases outcomes@.len() - i,
    {
        proof {
            assert(outcomes@.subrange(0, i + 1).drop_last() =~= outcomes@.subrange(0, i as int));
        }
        st.record(&outcomes[i]);
        i = i + 1;
    }
    proof {
        assert(outcomes@.subrange(0, i as int) =~= outcomes@);
    }
    st
}

proof fn lemma_recorded_commute(st: Stats, a: Outcome, b: Outcome)
    ensures
        st.recorded(a).recorded(b) == st.recorded(b).recorded(a),
{
}

/// Recording `s` equals recording `s` without its `j`-th outcome and that
/// outcome last.
proof fn lemma_move_to_end(s: Seq<Outcome>, j: int)
    requires
        0 <= j < s.len(),
    ensures
        summary(s) == summary(s.remove(j)).recorded(s[j]),
    decreases s.len(),
{
    if j == s.len() - 1 {
        assert(s.remove(j) =~= s.drop_last());
    } else {
        let d = s.drop_last();
        lemma_move_to_end(d, j);
        lemma_recorded_commute(summary(d.remove(j)), s[j], s.last());
        assert(s.remove(j) =~= d.remove(j).push(s.last()));
        assert(s.remove(j).drop_last() =~= d.remove(j));
    }
}

/// Outcomes recorded in any order give the same statistics: two sequences
/// that hold the same outcomes, each as often, have equal summaries. This is
/// why concurrent recorders may interleave freely.
pub proof fn lemma_order_independent(a: Seq<Outcome>, b: Seq<Outcome>)
    requires
        a.to_multiset() =~= b.to_multiset(),
    ensures
        summary(a) == summary(b),
    decreases a.len(),
{
    broadcast use vstd::seq_lib::group_to_multiset_ensures;

    if a.len() == 0 {
        vstd::seq_lib::to_multiset_len(a);
        vstd::seq_lib::to_multiset_len(b);
        assert(b =~= Seq::<Outcome>::empty());
    } else {
        let x = a.last();
        assert(a.drop_last().push(x) =~= a);
        assert(b.to_multiset().count(x) > 0);
        assert(b.contains(x));
        let j = choose|j: int| 0 <= j < b.len() && b[j] == x;
        lemma_move_to_end(b, j);
        assert(a.drop_last().to_multiset() =~= b.remove(j).to_multiset());
        lemma_order_independent(a.drop_last(), b.remove(j));
    }
}

/// Every recorded outcome is counted exactly once, as a success or as a
/// failure: after `n` records the two counts add up to `n`.
pub proof fn lemma_counts(s: Seq<Outcome>)
    requires
        s.len() <= u64::MAX,
    ensures
        summary(s).success_count == successes(s),
        summary(s).success_count + summary(s).failure_count == s.len(),
    decreases s.len(),
{
    if s.len() > 0 {
        lemma_counts(s.drop_last());
    }
}

/// The total duration is the exact sum of the recorded durations, as long
/// as that sum fits in 64 bits.
pub proof fn lemma_total(s: Seq<Outcome>)
    requires
        sum_durations(s) <= u64::MAX,
    ensures
        summary(s).total_duration_ns == sum_durations(s),
    decreases s.len(),
{
    if s.len() > 0 {
        lemma_total(s.drop_last());
    }
}

/// The minimum and maximum are the least and the greatest recorded
/// durations; with nothing recorded they are `NO_MIN` and 0.
pub proof fn lemma_extrema(s: Seq<Outcome>)
    ensures
        forall|i: int|
            0 <= i < s.len() ==> summary(s).min_duration_ns <= #[trigger] s[i].duration_ns
                <= summary(s).max_duration_ns,
        s.len() == 0 ==> summary(s).min_duration_ns == NO_MIN && summary(s).max_duration_ns == 0,
        s.len() > 0 ==> exists|i: int|
            0 <= i < s.len() && #[trigger] s[i].duration_ns == summary(s).min_duration_ns,
        s.len() > 0 ==> exists|i: int|
            0 <= i < s.len() && #[trigger] s[i].duration_ns == summary(s).max_duration_ns,
    decreases s.len(),
{
    if s.len() > 0 {
        let d = s.drop_last();
        lemma_extrema(d);
        let n = s.len() - 1;
        assert forall|i: int| 0 <= i < s.len() implies summary(s).min_duration_ns
            <= #[trigger] s[i].duration_ns <= summary(s).max_duration_ns by {
            if i < n {
                assert(s[i] == d[i]);
            }
        }
        if d.len() == 0 || s[n].duration_ns < summary(d).min_duration_ns {
            assert(s[n].duration_ns == summary(s).min_duration_ns);
        } else {
            let i = choose|i: int| 0 <= i < d.len() && d[i].duration_ns == summary(d).min_duration_ns;
            assert(s[i] == d[i]);
        }
        if d.len() == 0 || s[n].duration_ns > summary(d).max_duration_ns {
            assert(s[n].duration_ns == summary(s).max_duration_ns);
        } else {
            let i = choose|i: int| 0 <= i < d.len() && d[i].duration_ns == summary(d).max_duration_ns;
            assert(s[i] == d[i]);
        }
    }
}

} // verus!
