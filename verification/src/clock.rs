//! Timestamp conversion between OBS nanoseconds and OMT 100 ns ticks.

use vstd::prelude::*;

verus! {

/// OBS uses nanoseconds; OMT uses 100 ns ticks.
pub const NS_PER_OMT_TICK: u64 = 100;

/// Nanoseconds of a tick count: non-positive ticks give 0, larger values saturate at `u64::MAX`.
pub open spec fn ticks_to_ns_spec(ticks: int) -> int {
    if ticks <= 0 {
        0
    } else if ticks * 100 > u64::MAX {
        u64::MAX as int
    } else {
        ticks * 100
    }
}

/// Convert OMT 100 ns ticks to OBS nanoseconds.
pub fn omt_ticks_to_obs_ns(ticks: i64) -> (ns: u64)
    ensures
        ns as int == ticks_to_ns_spec(ticks as int),
{
    if ticks <= 0 {
        0
    } else {
        match (ticks as u64).checked_mul(NS_PER_OMT_TICK) {
            Some(ns) => ns,
            None => u64::MAX,
        }
    }
}

/// Convert OBS nanoseconds to OMT 100 ns ticks (rounding down).
pub fn obs_ns_to_omt_ticks(ns: u64) -> (ticks: i64)
    ensures
        ticks as int == ns as int / 100,
        ticks >= 0,
{
    (ns / NS_PER_OMT_TICK) as i64
}

/// Converting nanoseconds to ticks and back loses exactly the part below one tick.
pub proof fn lemma_ns_ticks_roundtrip(ns: u64)
    ensures
        ticks_to_ns_spec(ns as int / 100) == ns as int - ns as int % 100,
{
    assert(ns as int / 100 * 100 + ns as int % 100 == ns as int) by (nonlinear_arith);
}

/// Converting ticks to nanoseconds and back is the identity for ticks that do not saturate.
pub proof fn lemma_ticks_ns_roundtrip(ticks: int)
    requires
        0 <= ticks,
        ticks * 100 <= u64::MAX,
    ensures
        ticks_to_ns_spec(ticks) / 100 == ticks,
{
}

} // verus!
