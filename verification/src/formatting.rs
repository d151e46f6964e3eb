//! Rendering an elapsed time span with tiered units, most significant unit
//! first: days and hours, hours and minutes, minutes and seconds, or seconds
//! alone. All divisions truncate; a span exactly at a unit threshold falls to
//! the plain seconds form.

use vstd::prelude::*;
use vstd::string::StringExecFns;
use crate::text::decimal_digits;
use crate::text::u64_to_string;

verus! {

pub const MINUTE: u64 = 60;

pub const HOUR: u64 = MINUTE * 60;

pub const DAY: u64 = HOUR * 24;

/// The rendered form of a span of `secs` whole seconds: `"{m}m, {s}s"`
/// strictly between one minute and one hour, `"{h}h, {m}m"` strictly between
/// one hour and one day, `"{d}d, {h}h"` strictly above one day, and `"{s}s"`
/// otherwise, thresholds themselves included in the last form.
pub open spec fn spec_format_duration(secs: nat) -> Seq<char> {
    if 60 < secs && secs < 3600 {
        decimal_digits((secs / 60) as nat) + "m, "@ + decimal_digits((secs % 60) as nat) + "s"@
    } else if 3600 < secs && secs < 86400 {
        decimal_digits((secs / 3600) as nat) + "h, "@ + decimal_digits(
            ((secs % 3600) / 60) as nat,
        ) + "m"@
    } else if secs > 86400 {
        decimal_digits((secs / 86400) as nat) + "d, "@ + decimal_digits(
            ((secs % 86400) / 3600) as nat,
        ) + "h"@
    } else {
        decimal_digits(secs) + "s"@
    }
}

/// Writes a span of whole seconds in the tiered-unit form of
/// [`spec_format_duration`].
pub fn format_duration(secs: u64) -> (r: String)
    ensures
        r@ == spec_format_duration(secs as nat),
{
    proof {
        reveal_strlit("m, ");
        reveal_strlit("s");
        reveal_strlit("h, ");
        reveal_strlit("m");
        reveal_strlit("d, ");
        reveal_strlit("h");
    }
    let mut r: String;
    if MINUTE < secs && secs < HOUR {
        r = u64_to_string(secs / MINUTE);
        r.append("m, ");
        let tail = u64_to_string(secs % MINUTE);
        r.append(tail.as_str());
        r.append("s");
    } else if HOUR < secs && secs < DAY {
        r = u64_to_string(secs / HOUR);
        r.append("h, ");
        let tail = u64_to_string((secs % HOUR) / MINUTE);
        r.append(tail.as_str());
        r.append("m");
    } else if secs > DAY {
        r = u64_to_string(secs / DAY);
        r.append("d, ");
        let tail = u64_to_string((secs % DAY) / HOUR);
        r.append(tail.as_str());
        r.append("h");
    } else {
        r = u64_to_string(secs);
        r.append("s");
    }
    proof {
        assert(r@ =~= spec_format_duration(secs as nat));
    }
    r
}

} // verus!
