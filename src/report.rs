//! The summary figures of a finished run, in integer units.
use vstd::prelude::*;
use crate::stats::{Stats, NO_MIN, summary};
use crate::outcome::Outcome;
use crate::config::planned_requests;

verus! {

/// Nanoseconds per second, times the thousandths in which
/// `RunResult::requests_per_second_milli` counts.
pub const RATE_SCALE: u128 = 1_000_000_000_000;

/// What a run reports. Times are in nanoseconds; the request rate is in
/// thousandths of a request per second.
#[derive(Clone, Copy, Debug, PartialEq, Eq, Structural)]
pub struct RunResult {
    pub total_requests: u64,
    pub success_count: u64,
    pub failure_count: u64,
    pub wall_clock_ns: u64,
    pub requests_per_second_milli: u128,
    pub average_latency_ns: u64,
    pub min_latency_ns: u64,
    pub max_latency_ns: u64,
}

/// Requests per second, in thousandths, rounded down; 0 for a run that took
/// no measurable time.
pub open spec fn rate_milli(total_requests: u64, wall_clock_ns: u64) -> int {
    if wall_clock_ns == 0 {
        0
    } else {
        (total_requests * RATE_SCALE) / (wall_clock_ns as int)
    }
}

/// Mean duration per request, rounded down; 0 when no request was planned.
pub open spec fn average_ns(total_duration_ns: u64, total_requests: u64) -> int {
    if total_requests == 0 {
        0
    } else {
        total_duration_ns as int / total_requests as int
    }
}

/// The reported minimum: the sentinel of an empty run reads as 0.
pub open spec fn reported_min(min_duration_ns: u64) -> u64 {
    if min_duration_ns == NO_MIN {
        0
    } else {
        min_duration_ns
    }
}

pub open spec fn result_of(total_requests: u64, stats: Stats, wall_clock_ns: u64) -> RunResult {
    RunResult {
        total_requests,
        success_count: stats.success_count,
        failure_count: stats.failure_count,
        wall_clock_ns,
        requests_per_second_milli: rate_milli(total_requests, wall_clock_ns) as u128,
        average_latency_ns: average_ns(stats.total_duration_ns, total_requests) as u64,
        min_latency_ns: reported_min(stats.min_duration_ns),
        max_latency_ns: stats.max_duration_ns,
    }
}

/// The figures of a run of `total_requests` planned requests whose final
/// statistics are `stats` and which took `wall_clock_ns`.
pub fn compute_result(total_requests: u64, stats: &Stats, wall_clock_ns: u64) -> (r: RunResult)
    ensures
        r == result_of(total_requests, *stats, wall_clock_ns),
        r.requests_per_second_milli == rate_milli(total_requests, wall_clock_ns),
        r.average_latency_ns == average_ns(stats.total_duration_ns, total_requests),
{
    let rate: u128 = if wall_clock_ns == 0 {
        0
    } else {
        let t = total_requests as u128;
        assert(t * 1_000_000_000_000 <= 0xffff_ffff_ffff_ffffu128 * 1_000_000_000_000)
            by (nonlinear_arith)
            requires t <= 0xffff_ffff_ffff_ffffu128;
        let scaled: u128 = t * RATE_SCALE;
        assert(scaled / (wall_clock_ns as u128) <= scaled) by (nonlinear_arith)
            requires wall_clock_ns >= 1;
        scaled / (wall_clock_ns as u128)
    };
    let average: u64 = if total_requests == 0 {
        0
    } else {
        stats.total_duration_ns / total_requests
    };
    let min: u64 = if stats.min_duration_ns == NO_MIN {
        0
    } else {
        stats.min_duration_ns
    };
    RunResult {
        total_requests,
        success_count: stats.success_count,
        failure_count: stats.failure_count,
        wall_clock_ns,
        requests_per_second_milli: rate,
        average_latency_ns: average,
        min_latency_ns: min,
        max_latency_ns: stats.max_duration_ns,
    }
}

/// A run whose workers each send no request plans none, records none, and
/// reports a zero rate, zero average and zero extrema, whatever its
/// duration: no division by zero and no sentinel in the output.
pub proof fn lemma_idle_run(worker_count: usize, wall_clock_ns: u64)
    ensures
        planned_requests(worker_count, 0) == 0,
        ({
            let r = result_of(
                planned_requests(worker_count, 0) as u64,
                summary(Seq::<Outcome>::empty()),
                wall_clock_ns,
            );
            &&& r.total_requests == 0
            &&& r.requests_per_second_milli == 0
            &&& r.average_latency_ns == 0
            &&& r.min_latency_ns == 0
            &&& r.max_latency_ns == 0
            &&& r.success_count == 0
            &&& r.failure_count == 0
        }),
{
}

/// Extremum cells that no update ever touched still hold their initial
/// values, the sentinel `NO_MIN` and 0; they are reported as a zero minimum
/// and a zero maximum, whatever else the run did.
pub proof fn lemma_untouched_extrema_report_zero(
    total_requests: u64,
    stats: Stats,
    wall_clock_ns: u64,
)
    requires
        stats.min_duration_ns == NO_MIN,
        stats.max_duration_ns == 0,
    ensures
        result_of(total_requests, stats, wall_clock_ns).min_latency_ns == 0,
        result_of(total_requests, stats, wall_clock_ns).max_latency_ns == 0,
{
}

} // verus!
