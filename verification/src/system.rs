//! Pure helpers of the system-information command: shaping an uptime,
//! given in seconds, as weeks, days, hours, minutes and seconds.

use vstd::prelude::*;

use crate::text::{dec_str, u64_to_string};

verus! {

/// An uptime of `n` seconds written as `{w}w {d}d {h}h {m}m {s}s`.
pub open spec fn uptime_text(n: int) -> Seq<char> {
    dec_str(n / 604800) + "w "@ + dec_str((n % 604800) / 86400) + "d "@ + dec_str(
        (n % 86400) / 3600,
    ) + "h "@ + dec_str((n % 3600) / 60) + "m "@ + dec_str(n % 60) + "s"@
}

/// Writes an uptime, given in seconds, as weeks, days, hours, minutes and
/// seconds.
pub fn get_formatted_uptime(total_seconds: u64) -> (r: String)
    ensures
        r@ == uptime_text(total_seconds as int),
{
    let weeks = total_seconds / 604800;
    let days = (total_seconds % 604800) / 86400;
    let hours = (total_seconds % 86400) / 3600;
    let minutes = (total_seconds % 3600) / 60;
    let seconds = total_seconds % 60;
    let mut r = u64_to_string(weeks);
    r.append("w ");
    let days_text = u64_to_string(days);
    r.append(days_text.as_str());
    r.append("d ");
    let hours_text = u64_to_string(hours);
    r.append(hours_text.as_str());
    r.append("h ");
    let minutes_text = u64_to_string(minutes);
    r.append(minutes_text.as_str());
    r.append("m ");
    let seconds_text = u64_to_string(seconds);
    r.append(seconds_text.as_str());
    r.append("s");
    r
}

} // verus!
