//! A single-shot, resettable timeout, polled against the monotonic clock.
//!
//! Time is counted in nanoseconds. Each `Timeout` takes a reading of the
//! monotonic clock when it is created, and every instant it speaks of
//! (`now`, the expiry instant) is a count of nanoseconds since that reading.
use vstd::prelude::*;

use crate::clock::nanos_since;

verus! {

/// Nanoseconds in a microsecond.
pub const NANOS_PER_MICRO: u64 = 1_000;

/// Nanoseconds in a millisecond.
pub const NANOS_PER_MILLI: u64 = 1_000_000;

/// Nanoseconds in a second.
pub const NANOS_PER_SEC: u64 = 1_000_000_000;

/// Seconds in ten years of 365 days.
pub const SECONDS_IN_10_YEARS: u64 = 315_360_000;

/// The span of a timeout that never expires under normal circumstances: ten
/// years, in nanoseconds.
pub const NEVER_NS: u64 = SECONDS_IN_10_YEARS * NANOS_PER_SEC;

/// The instant for a clock reading of `t` nanoseconds: the reading,
/// saturated at `u64::MAX`.
pub open spec fn instant_of_reading(t: nat) -> nat {
    if t > u64::MAX {
        u64::MAX as nat
    } else {
        t
    }
}

/// What a `Timeout` is: the span it waits and the instant at which it expires,
/// both in nanoseconds.
pub struct TimeoutView {
    pub duration: nat,
    pub expiry: nat,
}

impl TimeoutView {
    /// A timeout created at instant 0.
    pub open spec fn fresh(duration: nat) -> TimeoutView {
        TimeoutView { duration, expiry: duration }
    }

    /// The same timeout, restarted at instant `now`.
    pub open spec fn restarted(self, now: nat) -> TimeoutView {
        TimeoutView { duration: self.duration, expiry: now + self.duration }
    }

    /// Expired once the clock has reached the expiry instant.
    pub open spec fn expired_at(self, now: nat) -> bool {
        now >= self.expiry
    }

    /// The nanoseconds from `now` to the expiry instant, or 0 once expired.
    pub open spec fn remaining_ns_at(self, now: nat) -> nat {
        if self.expired_at(now) {
            0
        } else {
            (self.expiry - now) as nat
        }
    }

    /// The remaining time in whole microseconds (truncated, never rounded up).
    pub open spec fn remaining_us_at(self, now: nat) -> nat {
        self.remaining_ns_at(now) / (NANOS_PER_MICRO as nat)
    }

    /// The remaining time in whole milliseconds.
    pub open spec fn remaining_ms_at(self, now: nat) -> nat {
        self.remaining_ns_at(now) / (NANOS_PER_MILLI as nat)
    }

    /// The remaining time in whole seconds.
    pub open spec fn remaining_s_at(self, now: nat) -> nat {
        self.remaining_ns_at(now) / (NANOS_PER_SEC as nat)
    }
}

/// A timeout: a span of time and the instant at which it runs out.
pub struct Timeout {
    /// The clock reading taken at creation; all instants count from it.
    origin: std::time::Instant,
    /// The configured span, in nanoseconds.
    duration_ns: u64,
    /// The expiry instant: the instant of the last creation or reset plus
    /// `duration_ns`.
    expire_ns: u128,
}

impl View for Timeout {
    type V = TimeoutView;

    closed spec fn view(&self) -> TimeoutView {
        TimeoutView { duration: self.duration_ns as nat, expiry: self.expire_ns as nat }
    }
}

impl Timeout {
    /// The expiry instant lies `duration_ns` after an instant that a `u64`
    /// can hold.
    #[verifier::type_invariant]
    spec fn inv(self) -> bool {
        &&& self.duration_ns <= self.expire_ns
        &&& self.expire_ns - self.duration_ns <= u64::MAX
    }

    /// Create a timeout that expires `duration_ns` nanoseconds from now.
    pub fn new(duration_ns: u64) -> (r: Timeout)
        ensures
            r@ == TimeoutView::fresh(duration_ns as nat),
    {
        Timeout {
            origin: std::time::Instant::now(),
            duration_ns,
            expire_ns: duration_ns as u128,
        }
    }

    /// Create a timeout that has expired already.
    pub fn now() -> (r: Timeout)
        ensures
            r@ == TimeoutView::fresh(0),
    {
        Timeout::new(0)
    }

    /// Create a timeout that lies ten years ahead, and so never expires.
    pub fn never() -> (r: Timeout)
        ensures
            r@ == TimeoutView::fresh(NEVER_NS as nat),
    {
        Timeout::new(NEVER_NS)
    }

    /// Restart the timeout at instant `now`: it then expires its configured
    /// duration later.
    pub fn reset_at(&mut self, now: u64)
        ensures
            final(self)@ == old(self)@.restarted(now as nat),
    {
        self.expire_ns = now as u128 + self.duration_ns as u128;
    }

    /// Whether the timeout has expired at instant `now`.
    pub fn expired_at(&self, now: u64) -> (r: bool)
        ensures
            r == self@.expired_at(now as nat),
    {
        now as u128 >= self.expire_ns
    }

    /// Nanoseconds left at instant `now`, or 0 once expired.
    pub fn remaining_ns_at(&self, now: u64) -> (r: u128)
        ensures
            r == self@.remaining_ns_at(now as nat),
    {
        if self.expired_at(now) {
            0
        } else {
            self.expire_ns - now as u128
        }
    }

    /// Whole microseconds left at instant `now`, or 0 once expired.
    pub fn remaining_us_at(&self, now: u64) -> (r: u128)
        ensures
            r == self@.remaining_us_at(now as nat),
    {
        self.remaining_ns_at(now) / (NANOS_PER_MICRO as u128)
    }

    /// Whole milliseconds left at instant `now`, or 0 once expired.
    pub fn remaining_ms_at(&self, now: u64) -> (r: u128)
        ensures
            r == self@.remaining_ms_at(now as nat),
    {
        self.remaining_ns_at(now) / (NANOS_PER_MILLI as u128)
    }

    /// Whole seconds left at instant `now`, or 0 once expired.
    pub fn remaining_s_at(&self, now: u64) -> (r: u64)
        ensures
            r == self@.remaining_s_at(now as nat),
    {
        proof {
            use_type_invariant(self);
        }
        let ns = self.remaining_ns_at(now);
        assert(ns / (NANOS_PER_SEC as u128) <= u64::MAX) by (nonlinear_arith)
            requires
                ns <= u64::MAX + u64::MAX,
        ;
        (ns / (NANOS_PER_SEC as u128)) as u64
    }

    /// The instant for a clock reading of `t` nanoseconds since creation:
    /// the reading itself, saturated at `u64::MAX` (some five centuries).
    pub fn instant_of(t: u128) -> (r: u64)
        ensures
            r == instant_of_reading(t as nat),
    {
        if t > u64::MAX as u128 {
            u64::MAX
        } else {
            t as u64
        }
    }

    /// The current instant, from a fresh reading of the monotonic clock.
    fn clock(&self) -> (r: u64)
        ensures
            exists|t: nat| t <= u128::MAX && r == #[trigger] instant_of_reading(t),
    {
        Self::instant_of(nanos_since(&self.origin))
    }

    /// Restart the timeout now: it expires its configured duration from now.
    pub fn reset(&mut self)
        ensures
            exists|t: nat| t <= u128::MAX && final(self)@ == #[trigger] old(self)@.restarted(instant_of_reading(t)),
            final(self)@.duration == old(self)@.duration,
    {
        let now = self.clock();
        self.reset_at(now);
    }

    /// Whether the timeout has expired.
    pub fn expired(&self) -> (r: bool)
        ensures
            exists|t: nat| t <= u128::MAX && r == #[trigger] self@.expired_at(instant_of_reading(t)),
            self@.expiry == 0 ==> r,
    {
        let now = self.clock();
        self.expired_at(now)
    }

    /// Milliseconds left until expiry, or 0 once expired.
    pub fn remaining(&self) -> (r: u128)
        ensures
            exists|t: nat| t <= u128::MAX && r == #[trigger] self@.remaining_ms_at(instant_of_reading(t)),
    {
        self.remaining_ms()
    }

    /// Whole seconds left until expiry, or 0 once expired.
    pub fn remaining_s(&self) -> (r: u64)
        ensures
            exists|t: nat| t <= u128::MAX && r == #[trigger] self@.remaining_s_at(instant_of_reading(t)),
    {
        let now = self.clock();
        self.remaining_s_at(now)
    }

    /// Whole milliseconds left until expiry, or 0 once expired.
    pub fn remaining_ms(&self) -> (r: u128)
        ensures
            exists|t: nat| t <= u128::MAX && r == #[trigger] self@.remaining_ms_at(instant_of_reading(t)),
    {
        let now = self.clock();
        self.remaining_ms_at(now)
    }

    /// Whole microseconds left until expiry, or 0 once expired.
    pub fn remaining_us(&self) -> (r: u128)
        ensures
            exists|t: nat| t <= u128::MAX && r == #[trigger] self@.remaining_us_at(instant_of_reading(t)),
    {
        let now = self.clock();
        self.remaining_us_at(now)
    }

    /// Nanoseconds left until expiry, or 0 once expired.
    pub fn remaining_ns(&self) -> (r: u128)
        ensures
            exists|t: nat| t <= u128::MAX && r == #[trigger] self@.remaining_ns_at(instant_of_reading(t)),
    {
        let now = self.clock();
        self.remaining_ns_at(now)
    }
}

} // verus!
