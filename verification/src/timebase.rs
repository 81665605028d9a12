//! Timebase arithmetic: converting a requested offset, given in microseconds,
//! into ticks of a stream's rational timebase.

use vstd::prelude::*;
use vstd::arithmetic::div_mod::lemma_div_is_ordered;
use vstd::arithmetic::mul::lemma_mul_inequality;

verus! {

/// Microseconds per second: requested offsets and container durations are
/// carried in microseconds.
pub const MICROS_PER_SECOND: u64 = 1000000;

/// A rational timebase: one timestamp tick spans `num / den` seconds.
pub struct TimeBase {
    pub num: u32,
    pub den: u32,
}

impl TimeBase {
    /// A usable timebase has a positive numerator and denominator.
    pub open spec fn wf(self) -> bool {
        self.num > 0 && self.den > 0
    }

    pub fn new(num: u32, den: u32) -> (r: Option<TimeBase>)
        ensures
            r is Some <==> (num > 0 && den > 0),
            r is Some ==> r->0.num == num && r->0.den == den && r->0.wf(),
    {
        if num > 0 && den > 0 {
            Some(TimeBase { num, den })
        } else {
            None
        }
    }
}

/// The tick count reached at `time_micros` microseconds under the timebase
/// `num / den` seconds per tick: seconds times `den / num`, rounded down.
pub open spec fn target_pts_spec(time_micros: u64, num: u32, den: u32) -> int {
    (time_micros * den) / (num * (MICROS_PER_SECOND as int))
}

/// Convert a requested offset to a target presentation timestamp in ticks.
/// `None` exactly when the tick count does not fit a signed 64-bit stamp;
/// no frame stamp can reach such a target.
pub fn target_pts(time_micros: u64, tb: &TimeBase) -> (r: Option<i64>)
    requires
        tb.wf(),
    ensures
        r is Some <==> target_pts_spec(time_micros, tb.num, tb.den) <= i64::MAX,
        r is Some ==> r->0 == target_pts_spec(time_micros, tb.num, tb.den),
{
    proof {
        assert(time_micros * (tb.den as int) <= 0xffff_ffff_ffff_ffff * 0xffff_ffff)
            by (nonlinear_arith)
            requires
                time_micros <= 0xffff_ffff_ffff_ffffu64,
                tb.den <= 0xffff_ffffu32,
        ;
        assert((tb.num as int) * (MICROS_PER_SECOND as int) <= 0xffff_ffff * 1000000)
            by (nonlinear_arith)
            requires
                tb.num <= 0xffff_ffffu32,
        ;
        assert((tb.num as int) * (MICROS_PER_SECOND as int) >= 1000000)
            by (nonlinear_arith)
            requires
                tb.num >= 1,
        ;
    }
    let ticks: u128 = (time_micros as u128) * (tb.den as u128)
        / ((tb.num as u128) * (MICROS_PER_SECOND as u128));
    if ticks <= i64::MAX as u128 {
        Some(ticks as i64)
    } else {
        None
    }
}

/// A later requested offset never maps to an earlier target timestamp.
pub proof fn lemma_target_pts_monotonic(t1: u64, t2: u64, num: u32, den: u32)
    requires
        num > 0,
        den > 0,
        t1 <= t2,
    ensures
        target_pts_spec(t1, num, den) <= target_pts_spec(t2, num, den),
{
    lemma_mul_inequality(t1 as int, t2 as int, den as int);
    lemma_div_is_ordered(t1 * den, t2 * den, num * (MICROS_PER_SECOND as int));
}

/// A request at time zero targets tick zero, whatever the timebase.
pub proof fn lemma_target_pts_zero(num: u32, den: u32)
    requires
        num > 0,
        den > 0,
    ensures
        target_pts_spec(0, num, den) == 0,
{
}

} // verus!
