use vstd::prelude::*;

verus! {

/// Whole seconds in a count of milliseconds, rounded toward zero.
pub open spec fn whole_seconds(millis: int) -> int {
    if millis >= 0 {
        millis / 1000
    } else {
        -((-millis) / 1000)
    }
}

/// Seconds that lie between two instants given in milliseconds: the whole
/// seconds of the second instant less those of the first.
pub fn compare_time_diff(time1: i64, time2: i64) -> (diff: i64)
    ensures
        diff == whole_seconds(time2 as int) - whole_seconds(time1 as int),
{
    let time1: i64 = time1 / 1000;
    let time_diff: i64 = (time2 / 1000) - time1;
    time_diff
}

} // verus!
