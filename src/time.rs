//! Wall-clock readings as milliseconds since the Unix epoch.
use vstd::prelude::*;
use crate::decimal::{decimal_seq, to_decimal};

verus! {

/// Milliseconds in `secs` whole seconds and `subsec_millis` further
/// milliseconds.
pub open spec fn millis_of(secs: nat, subsec_millis: nat) -> nat {
    secs * 1000 + subsec_millis
}

/// The milliseconds since the epoch of a clock reading of `secs` seconds and
/// `subsec_millis` milliseconds since the epoch; `None` where that does not
/// fit in a `u64`.
pub fn system_time_u64(secs: u64, subsec_millis: u32) -> (r: Option<u64>)
    ensures
        r is Some <==> millis_of(secs as nat, subsec_millis as nat) <= u64::MAX,
        r matches Some(m) ==> m as nat == millis_of(secs as nat, subsec_millis as nat),
{
    if secs > (u64::MAX - subsec_millis as u64) / 1000 {
        assert(secs * 1000 + subsec_millis > u64::MAX) by (nonlinear_arith)
            requires secs > (u64::MAX - subsec_millis as u64) / 1000;
        None
    } else {
        assert(secs * 1000 + subsec_millis <= u64::MAX) by (nonlinear_arith)
            requires secs <= (u64::MAX - subsec_millis as u64) / 1000;
        Some(secs * 1000 + subsec_millis as u64)
    }
}

/// The same reading as [`system_time_u64`], in decimal.
pub fn system_time(secs: u64, subsec_millis: u32) -> (r: Option<String>)
    ensures
        r is Some <==> millis_of(secs as nat, subsec_millis as nat) <= u64::MAX,
        r matches Some(s) ==> s@ == decimal_seq(millis_of(secs as nat, subsec_millis as nat)),
{
    match system_time_u64(secs, subsec_millis) {
        Some(m) => Some(to_decimal(m)),
        None => None,
    }
}

} // verus!
