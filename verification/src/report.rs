//! The final report printed on shutdown: the statistics render followed by a
//! line with the elapsed run time in tiered units and the wall-clock start
//! time the caller supplies.

use vstd::prelude::*;
use vstd::string::StringExecFns;
use crate::PingStats;
use crate::formatting::format_duration;
use crate::formatting::spec_format_duration;

verus! {

/// The shutdown report for `stats` after `elapsed_secs` whole seconds of
/// running, with `started` the caller's rendering of the start time.
pub open spec fn spec_final_report(
    stats: PingStats,
    elapsed_secs: u64,
    started: Seq<char>,
) -> Seq<char> {
    stats.spec_render() + "\n   time: pinged for "@ + spec_format_duration(elapsed_secs as nat)
        + " (began "@ + started + ")"@
}

/// Composes the report described by [`spec_final_report`].
pub fn final_report(stats: &PingStats, elapsed_secs: u64, started: &str) -> (r: String)
    requires
        stats.inv(),
    ensures
        r@ == spec_final_report(*stats, elapsed_secs, started@),
{
    proof {
        reveal_strlit("\n   time: pinged for ");
        reveal_strlit(" (began ");
        reveal_strlit(")");
    }
    let mut r = stats.render();
    r.append("\n   time: pinged for ");
    let spent = format_duration(elapsed_secs);
    r.append(spent.as_str());
    r.append(" (began ");
    r.append(started);
    r.append(")");
    proof {
        assert(r@ =~= spec_final_report(*stats, elapsed_secs, started@));
    }
    r
}

} // verus!
