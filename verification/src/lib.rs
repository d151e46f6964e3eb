//! Continuous network-reachability statistics.
//!
//! The crate accumulates the outcomes of repeated echo probes into running
//! totals (`PingStats`), renders those totals as a human-readable report, and
//! formats elapsed wall-clock time with tiered units. Latencies are carried as
//! unsigned integers in hundredths of a millisecond, so every derived value
//! (mean, drop percentage) is exact integer arithmetic.

use vstd::prelude::*;
use vstd::string::StringExecFns;

pub mod formatting;
pub mod probe;
pub mod report;
pub mod text;

use crate::text::decimal_digits;
use crate::text::fixed2;
use crate::text::fixed2_to_string;
use crate::text::u64_to_string;

verus! {

/// Running statistics over a stream of probe outcomes.
///
/// `latency_min`, `latency_max` and `latency_sum` are in hundredths of a
/// millisecond. Before the first success is recorded they hold the zero
/// sentinel and must not be read as real measurements.
#[derive(Clone, Copy)]
pub struct PingStats {
    pub total: u64,
    pub total_dropped: u64,
    pub total_sent: u64,
    pub latency_min: u64,
    pub latency_max: u64,
    pub latency_sum: u64,
}

impl PingStats {
    /// Well-formedness: every attempt is either a success or a drop, the
    /// latency bounds are ordered once a success exists, and the latency
    /// fields stay at the zero sentinel until then.
    pub open spec fn inv(self) -> bool {
        &&& self.total == self.total_sent + self.total_dropped
        &&& (self.total_sent > 0 ==> self.latency_min <= self.latency_max)
        &&& (self.total_sent == 0 ==> self.latency_min == 0 && self.latency_max == 0
            && self.latency_sum == 0)
    }

    /// The statistics after one more dropped attempt.
    pub open spec fn spec_recorded_dropped(self) -> PingStats {
        PingStats {
            total: (self.total + 1) as u64,
            total_dropped: (self.total_dropped + 1) as u64,
            total_sent: self.total_sent,
            latency_min: self.latency_min,
            latency_max: self.latency_max,
            latency_sum: self.latency_sum,
        }
    }

    /// The statistics after one more successful attempt with the given
    /// latency.
    pub open spec fn spec_recorded(self, latency: u64) -> PingStats {
        PingStats {
            total: (self.total + 1) as u64,
            total_dropped: self.total_dropped,
            total_sent: (self.total_sent + 1) as u64,
            latency_min: (if self.total_sent == 0 || latency < self.latency_min {
                latency
            } else {
                self.latency_min
            }),
            latency_max: (if self.total_sent == 0 || latency > self.latency_max {
                latency
            } else {
                self.latency_max
            }),
            latency_sum: (self.latency_sum + latency) as u64,
        }
    }

    /// Mean latency over the successes, in hundredths of a millisecond;
    /// zero when nothing succeeded yet.
    pub open spec fn spec_mean(self) -> u64 {
        if self.total_sent == 0 {
            0
        } else {
            self.latency_sum / self.total_sent
        }
    }

    /// Share of dropped attempts, in hundredths of a percent.
    pub open spec fn spec_percentage(self) -> u64
        recommends
            self.total > 0,
    {
        ((self.total_dropped * 10000) / (self.total as int)) as u64
    }

    pub fn new() -> (s: Self)
        ensures
            s.inv(),
            s.total == 0,
            s.total_dropped == 0,
            s.total_sent == 0,
            s.latency_min == 0,
            s.latency_max == 0,
            s.latency_sum == 0,
    {
        Self {
            total: 0,
            total_dropped: 0,
            total_sent: 0,
            latency_min: 0,
            latency_max: 0,
            latency_sum: 0,
        }
    }

    pub fn record_dropped(&mut self)
        requires
            old(self).inv(),
            old(self).total < u64::MAX,
        ensures
            final(self).inv(),
            *final(self) == old(self).spec_recorded_dropped(),
    {
        self.total = self.total + 1;
        self.total_dropped = self.total_dropped + 1;
    }

    pub fn record(&mut self, latency: u64)
        requires
            old(self).inv(),
            old(self).total < u64::MAX,
            old(self).latency_sum + latency <= u64::MAX,
        ensures
            final(self).inv(),
            *final(self) == old(self).spec_recorded(latency),
    {
        if self.total_sent == 0 {
            self.latency_min = latency;
            self.latency_max = latency;
        } else {
            if latency < self.latency_min {
                self.latency_min = latency;
            }
            if latency > self.latency_max {
                self.latency_max = latency;
            }
        }
        self.total = self.total + 1;
        self.total_sent = self.total_sent + 1;
        self.latency_sum = self.latency_sum + latency;
    }

    /// Mean latency in hundredths of a millisecond; `0` when no success has
    /// been recorded, so the call never divides by zero.
    pub fn mean(&self) -> (r: u64)
        ensures
            r == self.spec_mean(),
            self.total_sent == 0 ==> r == 0,
    {
        if self.total_sent == 0 {
            0
        } else {
            self.latency_sum / self.total_sent
        }
    }

    /// Drop percentage in hundredths of a percent, or `None` when nothing was
    /// attempted yet, so the call never divides by zero.
    pub fn percentage_dropped(&self) -> (r: Option<u64>)
        requires
            self.inv(),
        ensures
            r is None <==> self.total == 0,
            self.total > 0 ==> r == Some(self.spec_percentage()),
    {
        if self.total == 0 {
            None
        } else {
            proof {
                lemma_percentage_bounded(self.total_dropped as int, self.total as int);
            }
            let p: u128 = (self.total_dropped as u128) * 10000 / (self.total as u128);
            Some(p as u64)
        }
    }

    /// The drop-percentage segment of the report: empty when nothing was
    /// attempted, otherwise the percentage with two decimal places in
    /// parentheses.
    pub open spec fn spec_percent_part(self) -> Seq<char> {
        if self.total == 0 {
            Seq::<char>::empty()
        } else {
            " ("@ + fixed2(self.spec_percentage() as nat) + "%)"@
        }
    }

    /// The full multi-line report: attempt counts, the drop percentage when
    /// defined, and the mean, minimum and maximum latency with two decimal
    /// places.
    pub open spec fn spec_render(self) -> Seq<char> {
        "  stats: attempted "@ + decimal_digits(self.total as nat) + " pings, "@ + decimal_digits(
            self.total_sent as nat,
        ) + "/"@ + decimal_digits(self.total as nat) + " OK, "@ + decimal_digits(
            self.total_dropped as nat,
        ) + "/"@ + decimal_digits(self.total as nat) + self.spec_percent_part()
            + " dropped\nlatency: "@ + fixed2(self.spec_mean() as nat) + "ms mean, "@ + fixed2(
            self.latency_min as nat,
        ) + "ms min, "@ + fixed2(self.latency_max as nat) + "ms max"@
    }

    /// Writes the report described by [`Self::spec_render`]. Never fails,
    /// also on an aggregator with no observations.
    pub fn render(&self) -> (r: String)
        requires
            self.inv(),
        ensures
            r@ == self.spec_render(),
    {
        proof {
            reveal_strlit("  stats: attempted ");
            reveal_strlit(" pings, ");
            reveal_strlit("/");
            reveal_strlit(" OK, ");
            reveal_strlit(" (");
            reveal_strlit("%)");
            reveal_strlit(" dropped\nlatency: ");
            reveal_strlit("ms mean, ");
            reveal_strlit("ms min, ");
            reveal_strlit("ms max");
        }
        let total = u64_to_string(self.total);
        let mut r = "  stats: attempted ".to_owned();
        r.append(total.as_str());
        r.append(" pings, ");
        let sent = u64_to_string(self.total_sent);
        r.append(sent.as_str());
        r.append("/");
        r.append(total.as_str());
        r.append(" OK, ");
        let dropped = u64_to_string(self.total_dropped);
        r.append(dropped.as_str());
        r.append("/");
        r.append(total.as_str());
        match self.percentage_dropped() {
            Some(p) => {
                r.append(" (");
                let pct = fixed2_to_string(p);
                r.append(pct.as_str());
                r.append("%)");
            },
            None => {},
        }
        r.append(" dropped\nlatency: ");
        let mean = fixed2_to_string(self.mean());
        r.append(mean.as_str());
        r.append("ms mean, ");
        let lo = fixed2_to_string(self.latency_min);
        r.append(lo.as_str());
        r.append("ms min, ");
        let hi = fixed2_to_string(self.latency_max);
        r.append(hi.as_str());
        r.append("ms max");
        proof {
            assert(r@ =~= self.spec_render());
        }
        r
    }
}

/// With `dropped <= total` the scaled drop ratio never exceeds 10000, so it
/// fits every unsigned width used for it.
proof fn lemma_percentage_bounded(dropped: int, total: int)
    requires
        0 <= dropped <= total,
        0 < total,
    ensures
        0 <= (dropped * 10000) / total <= 10000,
{
    vstd::arithmetic::mul::lemma_mul_inequality(dropped, total, 10000);
    vstd::arithmetic::div_mod::lemma_div_is_ordered(dropped * 10000, total * 10000, total);
    vstd::arithmetic::div_mod::lemma_div_multiples_vanish(10000, total);
    vstd::arithmetic::div_mod::lemma_div_pos_is_pos(dropped * 10000, total);
    vstd::arithmetic::mul::lemma_mul_nonnegative(dropped, 10000);
}

/// Law: a record operation, successful or dropped, keeps the attempt count
/// equal to the sum of successes and drops, and preserves well-formedness.
pub proof fn lemma_record_preserves_partition(s: PingStats, latency: u64)
    requires
        s.inv(),
        s.total < u64::MAX,
        s.latency_sum + latency <= u64::MAX,
    ensures
        s.spec_recorded(latency).inv(),
        s.spec_recorded(latency).total == s.spec_recorded(latency).total_sent
            + s.spec_recorded(latency).total_dropped,
        s.spec_recorded_dropped().inv(),
        s.spec_recorded_dropped().total == s.spec_recorded_dropped().total_sent
            + s.spec_recorded_dropped().total_dropped,
{
}

/// Law: the report of an aggregator with no observations is one fixed string.
/// It holds neither `'N'` nor `'f'` nor `'%'`, so it cannot contain `"NaN"`
/// or `"inf"`, and the drop-percentage segment is absent rather than shown
/// as a division by zero.
pub proof fn lemma_render_zero_observations(s: PingStats)
    requires
        s.inv(),
        s.total == 0,
    ensures
        s.spec_percent_part() == Seq::<char>::empty(),
        s.spec_render()
            == "  stats: attempted 0 pings, 0/0 OK, 0/0 dropped\nlatency: 0.00ms mean, 0.00ms min, 0.00ms max"@,
        forall|i: int|
            0 <= i < s.spec_render().len() ==> (#[trigger] s.spec_render()[i]) != 'N'
                && s.spec_render()[i] != 'f' && s.spec_render()[i] != '%',
{
    reveal_strlit("  stats: attempted ");
    reveal_strlit(" pings, ");
    reveal_strlit("/");
    reveal_strlit(" OK, ");
    reveal_strlit(" dropped\nlatency: ");
    reveal_strlit("ms mean, ");
    reveal_strlit("ms min, ");
    reveal_strlit("ms max");
    reveal_strlit(
        "  stats: attempted 0 pings, 0/0 OK, 0/0 dropped\nlatency: 0.00ms mean, 0.00ms min, 0.00ms max",
    );
    assert(s.total_sent == 0 && s.total_dropped == 0);
    assert(decimal_digits(0) =~= seq!['0']);
    assert(fixed2(0) =~= seq!['0', '.', '0', '0']);
    assert(s.spec_render()
        =~= "  stats: attempted 0 pings, 0/0 OK, 0/0 dropped\nlatency: 0.00ms mean, 0.00ms min, 0.00ms max"@);
}

} // verus!
