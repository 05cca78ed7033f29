//! The round-trip delay that the ping command reports.
use vstd::prelude::*;

verus! {

/// `x` nanoseconds as whole milliseconds, rounded toward zero.
pub open spec fn whole_millis(x: int) -> int {
    if x >= 0 {
        x / 1_000_000
    } else {
        -((-x) / 1_000_000)
    }
}

/// The delay in whole milliseconds (rounded toward zero) between a message
/// sent at `sent_ns` and the moment `now_ns`, both in nanoseconds since the
/// Unix epoch; `None` where the difference does not fit in an `i64`.
pub fn ping_delay(now_ns: i64, sent_ns: i64) -> (r: Option<i64>)
    ensures
        r == (if i64::MIN <= now_ns - sent_ns <= i64::MAX {
            Some(whole_millis(now_ns - sent_ns) as i64)
        } else {
            None::<i64>
        }),
{
    match now_ns.checked_sub(sent_ns) {
        None => None,
        Some(d) => {
            if d >= 0 {
                Some(d / 1_000_000)
            } else if d == i64::MIN {
                Some(-((-(d + 1)) / 1_000_000))
            } else {
                Some(-((-d) / 1_000_000))
            }
        },
    }
}

} // verus!
