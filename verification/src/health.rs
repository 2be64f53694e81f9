//! The arithmetic behind the health report's human-readable uptime.

use vstd::prelude::*;

verus! {

/// Splits an uptime in seconds into whole days, hours within the day,
/// minutes within the hour and seconds within the minute.
pub fn uptime_parts(total_seconds: u64) -> (r: (u64, u64, u64, u64))
    ensures
        r.0 == total_seconds / 86400,
        r.1 == (total_seconds % 86400) / 3600,
        r.2 == (total_seconds % 3600) / 60,
        r.3 == total_seconds % 60,
{
    let days = total_seconds / 86400;
    let hours = (total_seconds % 86400) / 3600;
    let minutes = (total_seconds % 3600) / 60;
    let seconds = total_seconds % 60;
    (days, hours, minutes, seconds)
}

} // verus!
