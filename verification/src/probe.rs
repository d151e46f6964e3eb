//! Folding one probe result into the statistics and describing it as a
//! per-attempt line: a success is recorded with its latency, a timeout or a
//! transport error as a drop.

use vstd::prelude::*;
use vstd::string::StringExecFns;
use crate::PingStats;
use crate::text::decimal_digits;
use crate::text::fixed2;
use crate::text::fixed2_to_string;
use crate::text::padded_u64;
use crate::text::right_aligned;

verus! {

/// What the echo prober reports for one attempt that reached the transport:
/// the resolved hostname and address of the target, and the round-trip
/// latency in hundredths of a millisecond — `None` when the probe was sent
/// but no reply arrived within the timeout.
pub struct EchoReply {
    pub hostname: String,
    pub address: String,
    pub latency: Option<u64>,
}

/// The target as shown to the user: the resolved hostname with the address
/// in parentheses when the two differ, otherwise the name the user gave.
pub open spec fn spec_resolved_target(user: Seq<char>, result: Result<EchoReply, String>) -> Seq<
    char,
> {
    match result {
        Ok(reply) => if reply.hostname@ != reply.address@ {
            reply.hostname@ + " ("@ + reply.address@ + ")"@
        } else {
            user
        },
        Err(_) => user,
    }
}

/// The left column of an attempt line: the success sequence number right
/// aligned to seven characters, or the error marker for a drop.
pub open spec fn spec_tag(result: Result<EchoReply, String>, sent_after: nat) -> Seq<char> {
    match result {
        Ok(reply) => match reply.latency {
            Some(_) => right_aligned(decimal_digits(sent_after), 7),
            None => "  ERROR"@,
        },
        Err(_) => "  ERROR"@,
    }
}

/// The right column of an attempt line: the error text, the timeout marker,
/// or the measured latency with two decimal places.
pub open spec fn spec_remark(result: Result<EchoReply, String>) -> Seq<char> {
    match result {
        Ok(reply) => match reply.latency {
            Some(l) => fixed2(l as nat) + "ms"@,
            None => "timed out"@,
        },
        Err(e) => e@,
    }
}

/// One per-attempt line, with `sent_after` the success count after the
/// attempt was folded in.
pub open spec fn spec_attempt_line(
    user: Seq<char>,
    result: Result<EchoReply, String>,
    sent_after: nat,
) -> Seq<char> {
    spec_tag(result, sent_after) + " | "@ + spec_resolved_target(user, result) + " \u{25b8} "@
        + spec_remark(result)
}

/// The statistics after folding in one probe result.
pub open spec fn spec_after_outcome(s: PingStats, result: Result<EchoReply, String>) -> PingStats {
    match result {
        Ok(reply) => match reply.latency {
            Some(l) => s.spec_recorded(l),
            None => s.spec_recorded_dropped(),
        },
        Err(_) => s.spec_recorded_dropped(),
    }
}

/// Classifies one probe result, folds it into `stats`, and hands back the
/// line describing the attempt.
pub fn record_and_echo(
    user_provided_target: &str,
    ping_result: Result<EchoReply, String>,
    stats: &mut PingStats,
) -> (line: String)
    requires
        old(stats).inv(),
        old(stats).total < u64::MAX,
        ping_result matches Ok(reply) ==> (reply.latency matches Some(l) ==> old(
            stats,
        ).latency_sum + l <= u64::MAX),
    ensures
        final(stats).inv(),
        *final(stats) == spec_after_outcome(*old(stats), ping_result),
        line@ == spec_attempt_line(
            user_provided_target@,
            ping_result,
            final(stats).total_sent as nat,
        ),
{
    proof {
        reveal_strlit("  ERROR");
        reveal_strlit(" (");
        reveal_strlit(")");
        reveal_strlit(" | ");
        reveal_strlit(" \u{25b8} ");
        reveal_strlit("timed out");
        reveal_strlit("ms");
    }
    let ghost given: Result<EchoReply, String> = ping_result;
    let mut tag: String = "  ERROR".to_owned();
    let resolved: String = match &ping_result {
        Ok(reply) => {
            if reply.hostname != reply.address {
                let mut t = reply.hostname.clone();
                t.append(" (");
                t.append(reply.address.as_str());
                t.append(")");
                t
            } else {
                user_provided_target.to_owned()
            }
        },
        Err(_) => user_provided_target.to_owned(),
    };
    let remark: String;
    match ping_result {
        Err(error) => {
            stats.record_dropped();
            remark = error;
        },
        Ok(reply) => {
            match reply.latency {
                None => {
                    stats.record_dropped();
                    remark = "timed out".to_owned();
                },
                Some(latency) => {
                    stats.record(latency);
                    tag = padded_u64(stats.total_sent, 7);
                    let mut measured = fixed2_to_string(latency);
                    measured.append("ms");
                    remark = measured;
                },
            }
        },
    }
    let mut line = tag;
    line.append(" | ");
    line.append(resolved.as_str());
    line.append(" \u{25b8} ");
    line.append(remark.as_str());
    proof {
        assert(line@ =~= spec_attempt_line(
            user_provided_target@,
            given,
            stats.total_sent as nat,
        ));
    }
    line
}

} // verus!
