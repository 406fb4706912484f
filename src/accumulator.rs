//! The shared, lock-free accumulator that every worker records into.
//!
//! std's atomics carry no specification of the values they hold, so what
//! the fields contain after concurrent use is not stated here; the
//! accumulator performs, per recorded outcome, exactly the updates that
//! `Stats::record` describes, and `lemma_order_independent` shows that their
//! order does not matter.
use vstd::prelude::*;
use std::sync::atomic::AtomicU64;
use std::sync::atomic::Ordering;
use crate::outcome::{Classification, Outcome};
use crate::stats::{max_candidate, min_candidate, Stats, NO_MIN};

verus! {

/// Lowers `cell` to `val` unless it already holds a value no greater.
///
/// Reads the cell; stops if `min_candidate` finds that `val` does not
/// improve on it; otherwise tries to exchange the value read for `val`, and on failure retries from the
/// value that the failed exchange reported. Writers only ever lower the
/// cell, so each retry starts from a strictly smaller value, which bounds
/// the retries. Should the cell have risen in between, one `fetch_min`
/// finishes the update.
pub fn update_min(cell: &AtomicU64, val: u64) {
    let mut seen: u64 = cell.load(Ordering::Relaxed);
    loop
        decreases seen,
    {
        let write = match min_candidate(seen, val) {
            Some(w) => w,
            None => {
                break;
            },
        };
        match cell.compare_exchange(seen, write, Ordering::Relaxed, Ordering::Relaxed) {
            Ok(_) => {
                break;
            },
            Err(now) => {
                if now < seen {
                    seen = now;
                } else {
                    cell.fetch_min(val, Ordering::Relaxed);
                    break;
                }
            },
        }
    }
}

/// Raises `cell` to `val` unless it already holds a value no smaller: the
/// retry loop of `update_min`, deciding each step with `max_candidate`.
pub fn update_max(cell: &AtomicU64, val: u64) {
    let mut seen: u64 = cell.load(Ordering::Relaxed);
    loop
        decreases u64::MAX - seen,
    {
        let write = match max_candidate(seen, val) {
            Some(w) => w,
            None => {
                break;
            },
        };
        match cell.compare_exchange(seen, write, Ordering::Relaxed, Ordering::Relaxed) {
            Ok(_) => {
                break;
            },
            Err(now) => {
                if now > seen {
                    seen = now;
                } else {
                    cell.fetch_max(val, Ordering::Relaxed);
                    break;
                }
            },
        }
    }
}

/// Duration sum, extrema and outcome counts, updatable from any thread
/// through a shared reference, without a lock.
pub struct StatsAccumulator {
    total_duration_ns: AtomicU64,
    min_duration_ns: AtomicU64,
    max_duration_ns: AtomicU64,
    success_count: AtomicU64,
    failure_count: AtomicU64,
}

impl StatsAccumulator {
    /// An accumulator with nothing recorded: the fields of `Stats::new()`.
    pub fn new() -> (r: StatsAccumulator) {
        StatsAccumulator {
            total_duration_ns: AtomicU64::new(0),
            min_duration_ns: AtomicU64::new(NO_MIN),
            max_duration_ns: AtomicU64::new(0),
            success_count: AtomicU64::new(0),
            failure_count: AtomicU64::new(0),
        }
    }

    fn record_duration(&self, duration_ns: u64) {
        self.total_duration_ns.fetch_add(duration_ns, Ordering::Relaxed);
        update_min(&self.min_duration_ns, duration_ns);
        update_max(&self.max_duration_ns, duration_ns);
    }

    /// Records a successful request that took `duration_ns`.
    pub fn record_success(&self, duration_ns: u64) {
        self.record_duration(duration_ns);
        self.success_count.fetch_add(1, Ordering::Relaxed);
    }

    /// Records a failed request that took `duration_ns`.
    pub fn record_failure(&self, duration_ns: u64) {
        self.record_duration(duration_ns);
        self.failure_count.fetch_add(1, Ordering::Relaxed);
    }

    /// Records `o` as a success or a failure, by its classification.
    pub fn record(&self, o: &Outcome) {
        match o.classification {
            Classification::Success(_) => self.record_success(o.duration_ns),
            Classification::Failure => self.record_failure(o.duration_ns),
        }
    }

    /// The current field values. Meaningful as totals once every recorder
    /// has finished.
    pub fn snapshot(&self) -> (r: Stats) {
        Stats {
            total_duration_ns: self.total_duration_ns.load(Ordering::Relaxed),
            min_duration_ns: self.min_duration_ns.load(Ordering::Relaxed),
            max_duration_ns: self.max_duration_ns.load(Ordering::Relaxed),
            success_count: self.success_count.load(Ordering::Relaxed),
            failure_count: self.failure_count.load(Ordering::Relaxed),
        }
    }
}

} // verus!
