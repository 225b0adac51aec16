//! Elapsed time as `std::time::Duration`, viewed as a count of nanoseconds.

use std::time::Duration;
use vstd::prelude::*;

verus! {

/// The length of a duration in whole nanoseconds.
pub uninterp spec fn duration_nanos(d: Duration) -> nat;

/// The longest duration that can be represented: `u64::MAX` seconds and
/// 999,999,999 nanoseconds.
pub open spec fn max_duration_nanos() -> nat {
    18_446_744_073_709_551_615 * 1_000_000_000 + 999_999_999
}

/// `Duration::as_nanos`: the total number of nanoseconds, which never
/// exceeds that of `Duration::MAX`.
pub assume_specification[ Duration::as_nanos ](d: &Duration) -> (ns: u128)
    ensures
        ns == duration_nanos(*d),
        ns <= max_duration_nanos(),
;

/// `Duration::checked_add`: the sum, or `None` exactly when the sum is longer
/// than `Duration::MAX`.
pub assume_specification[ Duration::checked_add ](a: Duration, rhs: Duration) -> (sum: Option<
    Duration,
>)
    ensures
        duration_nanos(a) + duration_nanos(rhs) <= max_duration_nanos() ==> sum is Some
            && duration_nanos(sum->0) == duration_nanos(a) + duration_nanos(rhs),
        duration_nanos(a) + duration_nanos(rhs) > max_duration_nanos() ==> sum is None,
;

/// `Duration::new`: `secs` seconds plus `nanos` nanoseconds. The call panics
/// when carrying whole seconds out of `nanos` overflows the seconds counter,
/// so those arguments are excluded.
pub assume_specification[ Duration::new ](secs: u64, nanos: u32) -> (d: Duration)
    requires
        secs + nanos / 1_000_000_000 <= u64::MAX,
    ensures
        duration_nanos(d) == secs * 1_000_000_000 + nanos,
;

/// The timer after `dt` more time has passed: the sum, or zero when the sum
/// cannot be represented.
pub open spec fn advanced_nanos(timer: nat, dt: nat) -> nat {
    if timer + dt <= max_duration_nanos() {
        timer + dt
    } else {
        0
    }
}

/// Adds `dt` to `timer`, falling back to zero on overflow.
pub fn advance(timer: Duration, dt: Duration) -> (next: Duration)
    ensures
        duration_nanos(next) == advanced_nanos(duration_nanos(timer), duration_nanos(dt)),
{
    match timer.checked_add(dt) {
        Some(sum) => sum,
        None => Duration::new(0, 0),
    }
}

} // verus!
