//! Monotonic sample counter with wrap-around index arithmetic.
//!
//! The counter itself never wraps: it advances once per accepted sample and
//! saturates (with an error escalation) at the largest representable value.
//! Wrap-around is computed on demand, relative to a caller-supplied capacity,
//! to turn logical positions into circular-buffer slots.

use vstd::arithmetic::div_mod::{lemma_mod_sub_multiples_vanish, lemma_small_mod};
use vstd::prelude::*;

use crate::critical::raise_error_in_critical_section;
use crate::status::{error_transition, StatusLedMulti};

verus! {

/// Diagnostic sent with the fatal counter-overflow escalation.
pub const COUNTER_OVERFLOW_MSG: &'static str =
    "No ADC transfer in progress! Unable to collect latest readings";

/// Wrap-around addition over the index space `[0, cap)`: if `v + delta`
/// reaches `cap`, the sum folds back to `delta - (cap - v)`.
pub open spec fn wrap_add_spec(v: int, delta: int, cap: int) -> int {
    if v + delta >= cap {
        delta - (cap - v)
    } else {
        v + delta
    }
}

/// Wrap-around subtraction over the index space `[0, cap)`: if `delta`
/// exceeds `v`, the difference folds forward to `cap - (delta - v)`.
pub open spec fn wrap_sub_spec(v: int, delta: int, cap: int) -> int {
    if delta > v {
        cap - (delta - v)
    } else {
        v - delta
    }
}

/// The wrap-around sum is exactly addition modulo the capacity.
pub proof fn lemma_wrap_add_is_mod(v: int, delta: int, cap: int)
    requires
        0 <= v < cap,
        0 <= delta < cap,
    ensures
        wrap_add_spec(v, delta, cap) == (v + delta) % cap,
        0 <= wrap_add_spec(v, delta, cap) < cap,
{
    if v + delta >= cap {
        lemma_mod_sub_multiples_vanish(v + delta, cap);
        lemma_small_mod((v + delta - cap) as nat, cap as nat);
    } else {
        lemma_small_mod((v + delta) as nat, cap as nat);
    }
}

/// The wrap-around difference is exactly subtraction modulo the capacity.
pub proof fn lemma_wrap_sub_is_mod(v: int, delta: int, cap: int)
    requires
        0 <= v < cap,
        0 <= delta <= cap,
    ensures
        wrap_sub_spec(v, delta, cap) == (v - delta + cap) % cap,
        0 <= wrap_sub_spec(v, delta, cap) < cap,
{
    if delta > v {
        lemma_small_mod((v - delta + cap) as nat, cap as nat);
    } else {
        lemma_mod_sub_multiples_vanish(v - delta + cap, cap);
        lemma_small_mod((v - delta) as nat, cap as nat);
    }
}

/// For every counter value `v` and every `delta`, both in `[0, cap)`,
/// adding `delta` with wrap-around and then subtracting it again lands in
/// `[0, cap)` at each step and restores `v` exactly.
pub proof fn lemma_wrap_round_trip(v: int, delta: int, cap: int)
    requires
        0 <= v < cap,
        0 <= delta < cap,
    ensures
        0 <= wrap_add_spec(v, delta, cap) < cap,
        0 <= wrap_sub_spec(v, delta, cap) < cap,
        wrap_sub_spec(wrap_add_spec(v, delta, cap), delta, cap) == v,
{
}

/// Monotonic counter indicating the position of averaged samples.
#[derive(Clone, Copy, Debug, Default, PartialEq, Eq, PartialOrd, Ord, Structural)]
pub struct SampleCounter(pub usize);

impl SampleCounter {
    /// Get current counter value.
    pub fn get_counter(&self) -> (r: usize)
        ensures
            r == self.0,
    {
        self.0
    }

    /// Advance the counter by one. If the step would overflow the largest
    /// representable value, the condition is unrecoverable: the counter is
    /// left unchanged and the status device is driven to the error state
    /// under a critical section (so this must not itself be called from
    /// inside a critical section).
    pub fn increment(&mut self, leds: &mut StatusLedMulti)
        ensures
            old(self).0 < usize::MAX ==> {
                &&& final(self).0 == old(self).0 + 1
                &&& *final(leds) == *old(leds)
            },
            old(self).0 == usize::MAX ==> {
                &&& final(self).0 == old(self).0
                &&& *final(leds) == error_transition(*old(leds))
            },
    {
        if self.0 < usize::MAX {
            self.0 = self.0 + 1;
        } else {
            raise_error_in_critical_section(leds, Some(COUNTER_OVERFLOW_MSG));
        }
    }

    /// Add with defined wrapping. The result is within `[0, limit)`;
    /// defined only for `rhs < limit` and a counter already in range.
    ///
    /// Used to index the circular sample store.
    pub fn wrapping_counter_add(&self, rhs: usize, limit: usize) -> (r: usize)
        requires
            self.0 < limit,
            rhs < limit,
        ensures
            r == wrap_add_spec(self.0 as int, rhs as int, limit as int),
            r == (self.0 + rhs) % (limit as int),
            r < limit,
    {
        proof {
            lemma_wrap_add_is_mod(self.0 as int, rhs as int, limit as int);
        }
        if rhs >= limit - self.0 {
            rhs - (limit - self.0)
        } else {
            self.0 + rhs
        }
    }

    /// Subtract with defined wrapping. The result is within `[0, limit)`;
    /// defined only for `rhs <= limit` and a counter already in range.
    ///
    /// Used to index the circular sample store.
    pub fn wrapping_counter_sub(&self, rhs: usize, limit: usize) -> (r: usize)
        requires
            self.0 < limit,
            rhs <= limit,
        ensures
            r == wrap_sub_spec(self.0 as int, rhs as int, limit as int),
            r == (self.0 - rhs + limit) % (limit as int),
            r < limit,
    {
        proof {
            lemma_wrap_sub_is_mod(self.0 as int, rhs as int, limit as int);
        }
        if rhs > self.0 {
            limit - (rhs - self.0)
        } else {
            self.0 - rhs
        }
    }
}

} // verus!
