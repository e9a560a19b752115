//! Properties of timeouts, stated over `TimeoutView` and proved.
use vstd::prelude::*;

use vstd::arithmetic::div_mod::{lemma_div_by_multiple, lemma_div_denominator, lemma_div_is_ordered};

use crate::timeout::{NANOS_PER_MICRO, NANOS_PER_MILLI, NANOS_PER_SEC, NEVER_NS, SECONDS_IN_10_YEARS, TimeoutView};

verus! {

/// A timeout is expired at the instant of its creation exactly when its
/// duration is zero.
pub proof fn lemma_fresh_expired_iff_zero(duration: nat)
    ensures
        TimeoutView::fresh(duration).expired_at(0) <==> duration == 0,
{
}

/// Once strictly more than its duration has passed since creation, a timeout
/// is expired, and stays expired at every later instant.
pub proof fn lemma_expires_after_duration(duration: nat, now: nat, later: nat)
    requires
        now > duration,
        later >= now,
    ensures
        TimeoutView::fresh(duration).expired_at(now),
        TimeoutView::fresh(duration).expired_at(later),
{
}

/// A reset at instant `start` keeps the duration, makes the timeout pending
/// again unless its duration is zero (whether or not it had expired before),
/// leaves its whole duration to run, and lets it expire again once more than
/// its duration has passed since `start`.
pub proof fn lemma_reset_restores(t: TimeoutView, start: nat, later: nat)
    ensures
        t.restarted(start).duration == t.duration,
        t.restarted(start).expired_at(start) <==> t.duration == 0,
        t.restarted(start).remaining_ns_at(start) == t.duration,
        later > start + t.duration ==> t.restarted(start).expired_at(later),
{
}

/// A timeout of zero duration, which is what `Timeout::now` creates, is
/// expired at every instant, with nothing remaining.
pub proof fn lemma_zero_duration_expired(now: nat)
    ensures
        TimeoutView::fresh(0).expired_at(now),
        TimeoutView::fresh(0).remaining_ns_at(now) == 0,
{
}

/// A timeout of the ten-year span of `Timeout::never` is pending during its
/// first seconds, with more than ten years less five seconds left.
pub proof fn lemma_never_is_far_off(now: nat)
    requires
        now <= 4 * NANOS_PER_SEC,
    ensures
        !TimeoutView::fresh(NEVER_NS as nat).expired_at(now),
        TimeoutView::fresh(NEVER_NS as nat).remaining_s_at(now) > SECONDS_IN_10_YEARS - 5,
{
    let t = TimeoutView::fresh(NEVER_NS as nat);
    let ns = t.remaining_ns_at(now);
    assert(ns >= (SECONDS_IN_10_YEARS - 4) * NANOS_PER_SEC);
    lemma_div_is_ordered(
        (SECONDS_IN_10_YEARS - 4) * NANOS_PER_SEC,
        ns as int,
        NANOS_PER_SEC as int,
    );
    lemma_div_by_multiple(SECONDS_IN_10_YEARS - 4, NANOS_PER_SEC as int);
}

/// The remaining time in each unit is the remaining time in the next finer
/// unit, truncated: no unit implies another expiry instant than the others.
pub proof fn lemma_units_nest(t: TimeoutView, now: nat)
    ensures
        t.remaining_us_at(now) == t.remaining_ns_at(now) / 1000,
        t.remaining_ms_at(now) == t.remaining_us_at(now) / 1000,
        t.remaining_s_at(now) == t.remaining_ms_at(now) / 1000,
{
    let ns = t.remaining_ns_at(now) as int;
    lemma_div_denominator(ns, 1000, 1000);
    lemma_div_denominator(ns, 1_000_000, 1000);
    assert(NANOS_PER_MICRO == 1000);
    assert(NANOS_PER_MILLI == 1000 * 1000);
    assert(NANOS_PER_SEC == 1_000_000 * 1000);
}

/// As the clock moves forward, a timeout never goes from expired back to
/// pending, and the time it has left never grows, in any unit.
pub proof fn lemma_remaining_never_grows(t: TimeoutView, earlier: nat, later: nat)
    requires
        earlier <= later,
    ensures
        t.expired_at(earlier) ==> t.expired_at(later),
        t.remaining_ns_at(later) <= t.remaining_ns_at(earlier),
        t.remaining_us_at(later) <= t.remaining_us_at(earlier),
        t.remaining_ms_at(later) <= t.remaining_ms_at(earlier),
        t.remaining_s_at(later) <= t.remaining_s_at(earlier),
{
    let a = t.remaining_ns_at(later) as int;
    let b = t.remaining_ns_at(earlier) as int;
    lemma_div_is_ordered(a, b, NANOS_PER_MICRO as int);
    lemma_div_is_ordered(a, b, NANOS_PER_MILLI as int);
    lemma_div_is_ordered(a, b, NANOS_PER_SEC as int);
}

} // verus!
