//! The duty cycle: how long a worker works and sleeps in one period.

use vstd::prelude::*;

verus! {

/// Microseconds of one percent of a period.
pub const SCALE_MICROS: u64 = 100;

/// The smallest percentage a request may ask for.
pub const MIN_PERCENTAGE: u8 = 1;

/// The largest percentage a request may ask for.
pub const MAX_PERCENTAGE: u8 = 100;

/// Whether `p` is a percentage that a request may carry.
pub open spec fn valid_percentage(p: int) -> bool {
    MIN_PERCENTAGE <= p <= MAX_PERCENTAGE
}

/// Microseconds of busy work in one period at `p` percent.
pub open spec fn work_interval(p: int) -> int {
    p * SCALE_MICROS
}

/// Microseconds of sleep in one period at `p` percent.
pub open spec fn sleep_interval(p: int) -> int {
    (MAX_PERCENTAGE - p) * SCALE_MICROS
}

/// Microseconds of one whole period, whatever the percentage.
pub open spec fn period() -> int {
    MAX_PERCENTAGE * SCALE_MICROS
}

/// The two intervals of one period, in microseconds.
#[derive(Clone, Copy, Debug, PartialEq, Eq, Structural)]
pub struct DutyCycleSchedule {
    pub work_micros: u64,
    pub sleep_micros: u64,
}

impl DutyCycleSchedule {
    /// The schedule for `percentage`, or `None` where it is not a valid
    /// percentage.
    pub fn for_percentage(percentage: u8) -> (schedule: Option<DutyCycleSchedule>)
        ensures
            schedule is Some <==> valid_percentage(percentage as int),
            schedule matches Some(s) ==> s.work_micros == work_interval(percentage as int)
                && s.sleep_micros == sleep_interval(percentage as int),
    {
        if percentage < MIN_PERCENTAGE || percentage > MAX_PERCENTAGE {
            return None;
        }
        let work: u64 = percentage as u64 * SCALE_MICROS;
        let sleep: u64 = (MAX_PERCENTAGE - percentage) as u64 * SCALE_MICROS;
        Some(DutyCycleSchedule { work_micros: work, sleep_micros: sleep })
    }
}

/// Work and sleep always add up to one period, which is the work interval
/// at full load.
pub proof fn lemma_period_is_constant(p: int)
    requires
        valid_percentage(p),
    ensures
        work_interval(p) + sleep_interval(p) == period(),
        period() == work_interval(MAX_PERCENTAGE as int),
{
}

/// A larger percentage never works less and never sleeps more.
pub proof fn lemma_intervals_are_monotonic(p: int, q: int)
    requires
        p <= q,
    ensures
        work_interval(p) <= work_interval(q),
        sleep_interval(p) >= sleep_interval(q),
{
}

/// A worker sleeps for no time at all exactly at full load.
pub proof fn lemma_no_sleep_exactly_at_full_load(p: int)
    requires
        valid_percentage(p),
    ensures
        sleep_interval(p) == 0 <==> p == MAX_PERCENTAGE,
        sleep_interval(p) >= 0,
{
}

/// The work interval is least at the smallest percentage, and is not zero
/// even there.
pub proof fn lemma_work_interval_is_least_at_minimum(p: int)
    requires
        valid_percentage(p),
    ensures
        0 < work_interval(MIN_PERCENTAGE as int) <= work_interval(p),
{
}

} // verus!
