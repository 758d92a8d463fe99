//! Progress accounting for one streaming download: fine-grained progress
//! events for every chunk, and throttled log milestones at twenty-percent
//! steps. All state is owned by the one download it describes; nothing is
//! shared across concurrent downloads.

use vstd::prelude::*;
use vstd::arithmetic::div_mod::lemma_div_is_ordered;
use vstd::arithmetic::div_mod::lemma_div_of0;
use vstd::arithmetic::div_mod::lemma_fundamental_div_mod;
use vstd::arithmetic::mul::lemma_mul_inequality;

verus! {

/// One fine-grained progress report, emitted once per received chunk.
/// `percent_hundredths` is `None` exactly when the total size is unknown
/// (`total == 0`): a percentage would be meaningless then.
#[derive(Debug, Clone, Copy, PartialEq, Eq)]
pub struct ProgressEvent {
    pub downloaded: u64,
    pub total: u64,
    pub percent_hundredths: Option<u32>,
}

/// The share of `t` reached by `d`, in hundredths of a percent, clamped to
/// the full share; zero when the total is unknown or nothing is known of it.
pub open spec fn percent_hundredths_of(d: int, t: int) -> int {
    if t <= 0 {
        0
    } else if d >= t {
        10000
    } else {
        (d * 10000) / t
    }
}

/// The twenty-percent milestone reached by `d` out of `t`: 0 through 5,
/// where 5 stands for a complete transfer.
pub open spec fn milestone_of(d: int, t: int) -> int {
    if t <= 0 {
        0
    } else if d >= t {
        5
    } else {
        (d * 5) / t
    }
}

/// A scaled quotient of an incomplete transfer stays under the full value:
/// `d < t` keeps `d * s / t` within `[0, s)`.
proof fn lemma_scaled_ratio_lt(d: int, t: int, s: int)
    requires
        0 <= d < t,
        0 < s,
    ensures
        0 <= (d * s) / t < s,
{
    lemma_div_of0(t);
    lemma_mul_inequality(0, d, s);
    lemma_div_is_ordered(0, d * s, t);
    let q = (d * s) / t;
    lemma_fundamental_div_mod(d * s, t);
    if q >= s {
        lemma_mul_inequality(s, q, t);
        lemma_mul_inequality(d + 1, t, s);
        assert(d * s + s == (d + 1) * s) by (nonlinear_arith);
        assert(t * q == q * t) by (nonlinear_arith);
        assert(t * s == s * t) by (nonlinear_arith);
        assert(false);
    }
}

/// Percentages are bounded: with a known total they lie within
/// `[0, 10000]` hundredths, and the full value is reached exactly when the
/// downloaded bytes reach the total.
pub proof fn lemma_percent_bounds(d: int, t: int)
    requires
        t > 0,
        d >= 0,
    ensures
        0 <= percent_hundredths_of(d, t) <= 10000,
        percent_hundredths_of(d, t) == 10000 <==> d >= t,
{
    if d < t {
        lemma_scaled_ratio_lt(d, t, 10000);
    }
}

/// Percentages are monotone: with a known total, more downloaded bytes never
/// give a smaller percentage.
pub proof fn lemma_percent_monotone(d1: int, d2: int, t: int)
    requires
        t > 0,
        0 <= d1 <= d2,
    ensures
        percent_hundredths_of(d1, t) <= percent_hundredths_of(d2, t),
{
    lemma_percent_bounds(d1, t);
    lemma_percent_bounds(d2, t);
    if d2 < t {
        lemma_mul_inequality(d1, d2, 10000);
        lemma_div_is_ordered(d1 * 10000, d2 * 10000, t);
    }
}

/// Milestones are bounded by the final one and monotone in the downloaded
/// bytes.
pub proof fn lemma_milestone_monotone(d1: int, d2: int, t: int)
    requires
        t > 0,
        0 <= d1 <= d2,
    ensures
        0 <= milestone_of(d1, t) <= milestone_of(d2, t) <= 5,
{
    if d1 < t {
        lemma_scaled_ratio_lt(d1, t, 5);
    }
    if d2 < t {
        lemma_scaled_ratio_lt(d2, t, 5);
        lemma_mul_inequality(d1, d2, 5);
        lemma_div_is_ordered(d1 * 5, d2 * 5, t);
    }
}

/// Computes the percentage of a transfer with a known total, in hundredths.
pub fn percent_hundredths(d: u64, t: u64) -> (p: u32)
    requires
        t > 0,
    ensures
        p == percent_hundredths_of(d as int, t as int),
        p <= 10000,
{
    if d >= t {
        10000
    } else {
        let num: u128 = (d as u128) * 10000;
        let q: u128 = num / (t as u128);
        proof {
            lemma_scaled_ratio_lt(d as int, t as int, 10000);
        }
        q as u32
    }
}

/// Computes the twenty-percent milestone of a transfer with a known total.
pub fn milestone(d: u64, t: u64) -> (m: u8)
    requires
        t > 0,
    ensures
        m == milestone_of(d as int, t as int),
        m <= 5,
{
    if d >= t {
        5
    } else {
        let num: u128 = (d as u128) * 5;
        let q: u128 = num / (t as u128);
        proof {
            lemma_scaled_ratio_lt(d as int, t as int, 5);
        }
        q as u8
    }
}

/// Throttles log output to twenty-percent milestones. Each tracker belongs
/// to exactly one download; the highest milestone already logged is its only
/// state. A milestone is reported at most once, and only when it is higher
/// than everything logged before, so a download logs each of the five steps
/// at most once and in increasing order.
pub struct MilestoneTracker {
    pub last: u8,
}

impl MilestoneTracker {
    /// The tracker never records a milestone past the final one.
    pub open spec fn wf(&self) -> bool {
        self.last <= 5
    }

    /// A fresh tracker for one download; nothing is logged yet.
    pub fn new() -> (t: Self)
        ensures
            t.wf(),
            t.last == 0,
    {
        MilestoneTracker { last: 0 }
    }

    /// Notes the current position of the transfer and says which milestone,
    /// if any, to log now: exactly the transfer's current milestone, and only
    /// when it passes everything logged before.
    pub fn note(&mut self, d: u64, t: u64) -> (log: Option<u8>)
        requires
            old(self).wf(),
            t > 0,
        ensures
            final(self).wf(),
            ({
                let m = milestone_of(d as int, t as int);
                if m > old(self).last {
                    log == Some(m as u8) && final(self).last == m
                } else {
                    log is None && final(self).last == old(self).last
                }
            }),
    {
        let m = milestone(d, t);
        if m > self.last {
            self.last = m;
            Some(m)
        } else {
            None
        }
    }
}

} // verus!
