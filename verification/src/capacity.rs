//! The capacity of a channel, and the back-pressure of an unbounded one.
use crate::time::{duration_as_nanos, duration_from_nanos, duration_nanos};
use std::time::Duration;
use vstd::prelude::*;

verus! {

/// The capacity of a channel.
#[derive(Clone, Debug, PartialEq)]
pub enum Capacity {
    /// At most this many messages; sending into a full channel fails or waits.
    Bounded(usize),
    /// No limit, but sending slows down according to the back-pressure.
    Unbounded(BackPressure),
}

/// How sending into an unbounded channel slows down as messages pile up.
#[derive(Clone, Debug, PartialEq)]
pub struct BackPressure {
    /// The message count from which on a send has to wait.
    pub start_at: usize,
    /// The base timeout.
    pub timeout: Duration,
    /// How the timeout grows with the message count.
    pub growth: Growth,
}

/// How the timeout grows with the message count.
#[derive(Clone, Debug, PartialEq)]
pub enum Growth {
    /// `timeout = base_timeout * (growth ^ (msg_count - start_at))`, where the growth
    /// factor is the `f32` whose IEEE-754 bit pattern this holds (`f32::to_bits`).
    Exponential(u32),
    /// `timeout = base_timeout * (msg_count - start_at + 1)`.
    Linear,
}

/// A timeout that a sender has to wait before its message is pushed.
#[derive(Clone, Debug, PartialEq)]
pub enum Timeout {
    /// Wait exactly this long.
    Exact(Duration),
    /// Wait `base_nanos * factor.powi(exponent)` nanoseconds, computed in `f32` and
    /// truncated to a `u64`, where `factor` is the `f32` with bits `factor_bits`.
    Scaled { base_nanos: u128, factor_bits: u32, exponent: i32 },
}

/// The bound of a queue for this capacity: `Some(n)` for `Bounded(n)`, `None` for an
/// unbounded channel.
pub open spec fn bound_of(capacity: Capacity) -> Option<usize> {
    match capacity {
        Capacity::Bounded(n) => Some(n),
        Capacity::Unbounded(_) => None,
    }
}

/// The linear timeout in nanoseconds: the base timeout times the number of messages
/// from `start_at` on (counting `msg_count` itself), capped at `u64::MAX`.
pub open spec fn linear_timeout_nanos(base_nanos: int, start_at: int, msg_count: int) -> int {
    let want = base_nanos * (msg_count - start_at + 1);
    if want > u64::MAX {
        u64::MAX as int
    } else {
        want
    }
}

/// The exponent of the growth factor: how many messages lie beyond `start_at`,
/// capped at `i32::MAX`.
pub open spec fn scaled_exponent(start_at: int, msg_count: int) -> int {
    if msg_count - start_at > i32::MAX {
        i32::MAX as int
    } else {
        msg_count - start_at
    }
}

/// Whether `r` is the timeout that `bp` gives for `msg_count` messages: `None` below
/// `start_at`; from there on a linear timeout of `linear_timeout_nanos` nanoseconds, or
/// the scaled timeout over the base timeout, the growth factor and `scaled_exponent`.
pub open spec fn is_timeout_for(bp: BackPressure, msg_count: usize, r: Option<Timeout>) -> bool {
    if msg_count < bp.start_at {
        r is None
    } else {
        match bp.growth {
            Growth::Exponential(bits) => r == Some(
                Timeout::Scaled {
                    base_nanos: duration_nanos(bp.timeout),
                    factor_bits: bits,
                    exponent: scaled_exponent(bp.start_at as int, msg_count as int) as i32,
                },
            ),
            Growth::Linear => r matches Some(Timeout::Exact(d)) && duration_nanos(d)
                == linear_timeout_nanos(
                duration_nanos(bp.timeout) as int,
                bp.start_at as int,
                msg_count as int,
            ),
        }
    }
}

impl BackPressure {
    /// A back-pressure configuration that is disabled: it starts at `usize::MAX`
    /// messages, with a zero timeout that grows linearly.
    pub fn disabled() -> (r: Self)
        ensures
            r.start_at == usize::MAX,
            duration_nanos(r.timeout) == 0,
            r.growth == Growth::Linear,
    {
        BackPressure { start_at: usize::MAX, timeout: duration_from_nanos(0), growth: Growth::Linear }
    }

    /// The timeout a sender has to wait when the channel holds `msg_count` messages,
    /// or `None` when it does not have to wait.
    pub fn get_timeout(&self, msg_count: usize) -> (r: Option<Timeout>)
        ensures
            is_timeout_for(*self, msg_count, r),
    {
        if msg_count >= self.start_at {
            let nanos: u128 = duration_as_nanos(&self.timeout);
            match self.growth {
                Growth::Exponential(bits) => Some(
                    Timeout::Scaled {
                        base_nanos: nanos,
                        factor_bits: bits,
                        exponent: growth_exponent(self.start_at, msg_count),
                    },
                ),
                Growth::Linear => Some(
                    Timeout::Exact(duration_from_nanos(linear_nanos(nanos, self.start_at, msg_count))),
                ),
            }
        } else {
            None
        }
    }
}

/// The linear timeout in nanoseconds for a base timeout of `base_nanos` nanoseconds:
/// the base times the number of messages from `start_at` on, saturating at `u64::MAX`.
pub fn linear_nanos(base_nanos: u128, start_at: usize, msg_count: usize) -> (r: u64)
    requires
        start_at <= msg_count,
    ensures
        r == linear_timeout_nanos(base_nanos as int, start_at as int, msg_count as int),
{
    let mult: u128 = (msg_count - start_at) as u128 + 1;
    match base_nanos.checked_mul(mult) {
        Some(total) => if total > u64::MAX as u128 {
            u64::MAX
        } else {
            total as u64
        },
        None => u64::MAX,
    }
}

/// The exponent of the growth factor: the number of messages beyond `start_at`,
/// capped at `i32::MAX`.
pub fn growth_exponent(start_at: usize, msg_count: usize) -> (r: i32)
    requires
        start_at <= msg_count,
    ensures
        r == scaled_exponent(start_at as int, msg_count as int),
{
    let diff: usize = msg_count - start_at;
    if diff > 0x7fff_ffff {
        i32::MAX
    } else {
        diff as i32
    }
}

impl Default for BackPressure {
    /// Starts at 5 messages with a base timeout of 25 nanoseconds, growing by a
    /// factor of 1.3 per message.
    fn default() -> (r: Self)
        ensures
            r.start_at == 5,
            duration_nanos(r.timeout) == 25,
            r.growth == Growth::Exponential(0x3fa6_6666),
    {
        BackPressure {
            start_at: 5,
            timeout: duration_from_nanos(25),
            growth: Growth::Exponential(0x3fa6_6666),
        }
    }
}

impl Default for Capacity {
    /// An unbounded channel with the default back-pressure.
    fn default() -> (r: Self)
        ensures
            r matches Capacity::Unbounded(bp) && bp.start_at == 5 && duration_nanos(bp.timeout) == 25
                && bp.growth == Growth::Exponential(0x3fa6_6666),
    {
        Capacity::Unbounded(BackPressure::default())
    }
}

/// A disabled back-pressure never makes a sender wait: whatever the message count,
/// the timeout is either absent or zero nanoseconds long.
pub proof fn disabled_never_waits(bp: BackPressure, msg_count: usize, r: Option<Timeout>)
    requires
        bp.start_at == usize::MAX,
        duration_nanos(bp.timeout) == 0,
        bp.growth == Growth::Linear,
        is_timeout_for(bp, msg_count, r),
    ensures
        r is None || (r matches Some(Timeout::Exact(d)) && duration_nanos(d) == 0),
{
    if msg_count >= bp.start_at {
        assert(msg_count - bp.start_at + 1 == 1);
    }
}

/// Back-pressure holds a sender back exactly from `start_at` messages on: the timeout
/// is there when, and only when, the channel holds at least `start_at` messages.
pub proof fn backpressure_starts_at(bp: BackPressure, msg_count: usize, r: Option<Timeout>)
    requires
        is_timeout_for(bp, msg_count, r),
    ensures
        r is Some <==> msg_count >= bp.start_at,
{
}

/// Linear back-pressure only grows: with more messages in the channel, the timeout
/// is at least as long.
pub proof fn linear_timeout_grows(base_nanos: int, start_at: int, fewer: int, more: int)
    requires
        0 <= base_nanos,
        start_at <= fewer <= more,
    ensures
        linear_timeout_nanos(base_nanos, start_at, fewer) <= linear_timeout_nanos(
            base_nanos,
            start_at,
            more,
        ),
{
    let a = fewer - start_at + 1;
    let b = more - start_at + 1;
    assert(base_nanos * a <= base_nanos * b) by (nonlinear_arith)
        requires
            0 <= base_nanos,
            0 <= a <= b,
    ;
}

/// Exponential back-pressure only grows: with more messages in the channel, the
/// exponent of the growth factor is at least as large.
pub proof fn scaled_exponent_grows(start_at: int, fewer: int, more: int)
    requires
        start_at <= fewer <= more,
    ensures
        0 <= scaled_exponent(start_at, fewer) <= scaled_exponent(start_at, more) <= i32::MAX,
{
}

} // verus!
