//! Receive-side flow analyzer.
//!
//! `UdpData` consumes decoded headers in arrival order and maintains the
//! per-flow counters: received, lost, out-of-order and byte counts, the
//! RFC 3550 style jitter estimate, and the adaptive packet-rate
//! recommendation. Counters saturate at `u64::MAX` instead of wrapping.
//!
//! Times are integers throughout: arrival times and jitter in microseconds,
//! rates in packets per second.

use vstd::prelude::*;

use crate::arith::abs_diff;
use crate::arith::sat64;
use crate::arith::sat_i64;
use crate::codec::UdpHeader;

verus! {

/// A received-percentage floor, in whole percent: below it the rate
/// recommendation backs off by five percent.
pub const ACCEPTABLE_PERCENT: u64 = 99;

/// The floor for the fractional-percent part (in hundredths of a percent,
/// taken from the third and fourth decimal digits of the received
/// percentage): at or above it the recommendation nudges up by five packets
/// per second, below it down by ten.
pub const ACCEPTABLE_FRACTION: u64 = 98;

/// Statistics of one measurement interval.
#[derive(Debug, Clone, Copy, PartialEq, Eq, Structural)]
pub struct IntervalResult {
    /// Number of packets received.
    pub received: u64,
    /// Number of packets lost.
    pub lost: u64,
    /// Total bytes received.
    pub bytes: u64,
    /// Jitter estimate in microseconds.
    pub jitter_us: u64,
    /// Number of out-of-order packets.
    pub out_of_order: u64,
    /// Recommended packet rate (packets per second).
    pub recommended_bitrate: u64,
    /// Elapsed time of the interval in microseconds.
    pub time_us: u64,
}

/// The all-zero interval record.
pub open spec fn spec_zero_interval() -> IntervalResult {
    IntervalResult {
        received: 0,
        lost: 0,
        bytes: 0,
        jitter_us: 0,
        out_of_order: 0,
        recommended_bitrate: 0,
        time_us: 0,
    }
}

impl Default for IntervalResult {
    /// The all-zero interval record.
    fn default() -> (r: Self)
        ensures
            r == spec_zero_interval(),
    {
        IntervalResult {
            received: 0,
            lost: 0,
            bytes: 0,
            jitter_us: 0,
            out_of_order: 0,
            recommended_bitrate: 0,
            time_us: 0,
        }
    }
}

/// Sequence state and running counters of one measured flow.
#[derive(Debug, Clone, Copy)]
pub struct UdpData {
    /// Highest sequence number accepted so far; `None` before the first packet.
    pub last_seq: Option<u64>,
    /// Previous packet's transit time (arrival minus send, microseconds).
    pub prev_transit_us: Option<i64>,
    /// Counters of the current interval.
    pub interval_result: IntervalResult,
    /// Packets received in the current rate-recommendation window.
    pub period_received: u64,
    /// Packets lost in the current rate-recommendation window.
    pub period_lost: u64,
    /// Last computed recommended packet rate (packets per second).
    pub recommend_pps: u64,
}

/// The highest-seen sequence marker after a packet with number `seq`
/// arrives: it never regresses.
pub open spec fn spec_next_last_seq(prev: Option<u64>, seq: u64) -> Option<u64> {
    match prev {
        Option::None => Option::Some(seq),
        Option::Some(p) => if seq > p {
            Option::Some(seq)
        } else {
            Option::Some(p)
        },
    }
}

/// How many sequence numbers a packet with number `seq` skips over: the
/// width of the gap above the previous marker, zero for the first packet,
/// duplicates and out-of-order arrivals.
pub open spec fn spec_gap(prev: Option<u64>, seq: u64) -> int {
    match prev {
        Option::None => 0,
        Option::Some(p) => if seq > p + 1 {
            seq - (p + 1)
        } else {
            0
        },
    }
}

/// One exactly when a packet with number `seq` arrives below the previous
/// marker (out of order), zero otherwise.
pub open spec fn spec_ooo(prev: Option<u64>, seq: u64) -> int {
    match prev {
        Option::None => 0,
        Option::Some(p) => if seq < p {
            1
        } else {
            0
        },
    }
}

/// The sender's send timestamp in microseconds since the Unix epoch.
pub open spec fn spec_send_time_us(sec: u64, usec: u32) -> int {
    sec * 1_000_000 + usec
}

/// The packet's transit time: arrival time (microseconds since session
/// start) minus send timestamp, clamped into `i64`. The two clocks need not
/// agree; only differences of transit times are ever used.
pub open spec fn spec_transit_us(h: UdpHeader, now_us: u64) -> i64 {
    sat_i64(now_us - spec_send_time_us(h.sec, h.usec))
}

/// One step of the RFC 3550 jitter estimator: move the estimate `j` toward
/// the observed deviation `d` by a sixteenth of their distance, rounded
/// down.
pub open spec fn spec_jitter_step(j: u64, d: int) -> u64
    recommends
        0 <= d <= u64::MAX,
{
    if d >= j {
        (j + (d - j) / 16) as u64
    } else {
        (j - (j - d) / 16) as u64
    }
}

/// The jitter estimate after a packet with transit time `transit`, given
/// the previous packet's transit time: unchanged for the very first packet.
pub open spec fn spec_next_jitter(j: u64, prev_transit: Option<i64>, transit: i64) -> u64 {
    match prev_transit {
        Option::None => j,
        Option::Some(p) => spec_jitter_step(j, abs_diff(transit as int, p as int)),
    }
}

/// The recommended packet rate derived from one observation window:
/// zero without traffic; the achieved rate while nothing was lost; five
/// percent less when the received percentage drops below
/// `ACCEPTABLE_PERCENT`; otherwise a nudge of plus five or minus ten
/// packets per second, decided by the fractional-percent part against
/// `ACCEPTABLE_FRACTION`. Never negative.
pub open spec fn spec_recommended_pps(received: u64, lost: u64, window_us: u64) -> u64
    recommends
        window_us > 0,
{
    if received == 0 {
        0
    } else {
        let pps = sat64(received * 1_000_000 / (window_us as int));
        if lost == 0 {
            pps
        } else {
            let kept: int = if lost >= received {
                0
            } else {
                received - lost
            };
            if kept * 100 / (received as int) < ACCEPTABLE_PERCENT {
                sat64(pps * 95 / 100)
            } else if (kept * 1_000_000 / (received as int)) % 100 >= ACCEPTABLE_FRACTION {
                sat64(pps + 5)
            } else {
                sat64(pps - 10)
            }
        }
    }
}

/// The whole flow state after one packet of `packet_len` bytes with header
/// `h` arrives `now_us` microseconds into the session.
pub open spec fn spec_process_packet(d: UdpData, packet_len: u64, h: UdpHeader, now_us: u64) -> UdpData {
    let transit = spec_transit_us(h, now_us);
    UdpData {
        last_seq: spec_next_last_seq(d.last_seq, h.seq),
        prev_transit_us: Option::Some(transit),
        interval_result: IntervalResult {
            received: sat64(d.interval_result.received + 1),
            lost: sat64(d.interval_result.lost + spec_gap(d.last_seq, h.seq)),
            bytes: sat64(d.interval_result.bytes + packet_len),
            jitter_us: spec_next_jitter(d.interval_result.jitter_us, d.prev_transit_us, transit),
            out_of_order: sat64(d.interval_result.out_of_order + spec_ooo(d.last_seq, h.seq)),
            recommended_bitrate: d.interval_result.recommended_bitrate,
            time_us: d.interval_result.time_us,
        },
        period_received: sat64(d.period_received + 1),
        period_lost: sat64(d.period_lost + spec_gap(d.last_seq, h.seq)),
        recommend_pps: d.recommend_pps,
    }
}

/// The interval record that a snapshot at `elapsed_us` returns: the
/// current interval counters, tagged with the elapsed time and the current
/// rate recommendation.
pub open spec fn spec_snapshot(d: UdpData, elapsed_us: u64) -> IntervalResult {
    IntervalResult {
        recommended_bitrate: d.recommend_pps,
        time_us: elapsed_us,
        ..d.interval_result
    }
}

/// The flow state after a snapshot: the interval counters are zeroed,
/// sequence state and the recommendation window are kept.
pub open spec fn spec_after_snapshot(d: UdpData) -> UdpData {
    UdpData { interval_result: spec_zero_interval(), ..d }
}

/// Each jitter update moves the estimate toward the observed deviation and
/// never past it; the distance between them shrinks by exactly its
/// sixteenth, rounded down. For a constant deviation the estimate therefore
/// converges to it (and, being unsigned, never goes negative).
pub proof fn lemma_jitter_step_toward_delta(j: u64, d: u64)
    ensures
        abs_diff(spec_jitter_step(j, d as int) as int, d as int) == abs_diff(j as int, d as int)
            - abs_diff(j as int, d as int) / 16,
        j <= d ==> j <= spec_jitter_step(j, d as int) <= d,
        d <= j ==> d <= spec_jitter_step(j, d as int) <= j,
{
    if d >= j {
        let dist = d - j;
        assert(0 <= dist / 16 <= dist) by (nonlinear_arith)
            requires
                dist >= 0,
        ;
    } else {
        let dist = j - d;
        assert(0 <= dist / 16 <= dist) by (nonlinear_arith)
            requires
                dist >= 0,
        ;
    }
}

impl UdpData {
    /// A fresh flow: no packet seen, every counter zero.
    pub fn new() -> (d: Self)
        ensures
            d.last_seq is None,
            d.prev_transit_us is None,
            d.interval_result == spec_zero_interval(),
            d.period_received == 0,
            d.period_lost == 0,
            d.recommend_pps == 0,
    {
        Self {
            last_seq: Option::None,
            prev_transit_us: Option::None,
            interval_result: IntervalResult::default(),
            period_received: 0,
            period_lost: 0,
            recommend_pps: 0,
        }
    }

    /// Accounts one accepted packet: counts it, classifies its sequence
    /// number against the highest seen so far (in-order, duplicate, gap or
    /// out-of-order), and folds its transit time into the jitter estimate.
    ///
    /// `now_us` is the arrival time in microseconds since session start.
    pub fn process_packet(&mut self, packet_len: usize, h: &UdpHeader, now_us: u64)
        ensures
            *final(self) == spec_process_packet(*old(self), packet_len as u64, *h, now_us),
    {
        self.interval_result.received = self.interval_result.received.saturating_add(1);
        self.interval_result.bytes = self.interval_result.bytes.saturating_add(packet_len as u64);
        self.period_received = self.period_received.saturating_add(1);

        match self.last_seq {
            Option::None => {
                self.last_seq = Option::Some(h.seq);
            },
            Option::Some(prev) => {
                if h.seq > prev {
                    // An in-order advance is a gap of width zero.
                    let gap = h.seq - prev - 1;
                    self.interval_result.lost = self.interval_result.lost.saturating_add(gap);
                    self.period_lost = self.period_lost.saturating_add(gap);
                    self.last_seq = Option::Some(h.seq);
                } else if h.seq < prev {
                    self.interval_result.out_of_order =
                        self.interval_result.out_of_order.saturating_add(1);
                }
                // A duplicate (h.seq == prev) touches no classification counter.
            },
        }

        let send_us: i128 = (h.sec as i128) * 1_000_000 + (h.usec as i128);
        let transit_wide: i128 = (now_us as i128) - send_us;
        let transit: i64 = if transit_wide > i64::MAX as i128 {
            i64::MAX
        } else if transit_wide < i64::MIN as i128 {
            i64::MIN
        } else {
            transit_wide as i64
        };

        if let Option::Some(p) = self.prev_transit_us {
            let diff: i128 = (transit as i128) - (p as i128);
            let d: u64 = if diff >= 0 {
                diff as u64
            } else {
                (-diff) as u64
            };
            let j = self.interval_result.jitter_us;
            self.interval_result.jitter_us = if d >= j {
                j + (d - j) / 16
            } else {
                j - (j - d) / 16
            };
        }
        self.prev_transit_us = Option::Some(transit);
    }

    /// Recomputes the recommended packet rate from the counters of the
    /// current observation window (`window_us` microseconds long) and
    /// resets those counters for the next window.
    pub fn calc_bitrate(&mut self, window_us: u64)
        requires
            window_us > 0,
        ensures
            final(self).recommend_pps == spec_recommended_pps(
                old(self).period_received,
                old(self).period_lost,
                window_us,
            ),
            final(self).period_received == 0,
            final(self).period_lost == 0,
            final(self).last_seq == old(self).last_seq,
            final(self).prev_transit_us == old(self).prev_transit_us,
            final(self).interval_result == old(self).interval_result,
    {
        let received = self.period_received;
        let lost = self.period_lost;
        self.period_received = 0;
        self.period_lost = 0;

        if received == 0 {
            self.recommend_pps = 0;
            return;
        }
        let pps_wide: u128 = (received as u128) * 1_000_000 / (window_us as u128);
        let pps: u64 = if pps_wide > u64::MAX as u128 {
            u64::MAX
        } else {
            pps_wide as u64
        };
        if lost == 0 {
            self.recommend_pps = pps;
            return;
        }
        let kept: u64 = if lost >= received {
            0
        } else {
            received - lost
        };
        proof {
            assert((kept as int) * 100 / (received as int) <= 100) by (nonlinear_arith)
                requires
                    0 <= kept <= received,
                    received >= 1,
            ;
            assert((pps as int) * 95 / 100 <= pps) by (nonlinear_arith)
                requires
                    pps >= 0,
            ;
        }
        let ratio_pct: u64 = ((kept as u128) * 100 / (received as u128)) as u64;
        if ratio_pct < ACCEPTABLE_PERCENT {
            self.recommend_pps = ((pps as u128) * 95 / 100) as u64;
        } else {
            let frac: u64 = (((kept as u128) * 1_000_000 / (received as u128)) % 100) as u64;
            if frac >= ACCEPTABLE_FRACTION {
                self.recommend_pps = pps.saturating_add(5);
            } else {
                self.recommend_pps = pps.saturating_sub(10);
            }
        }
    }

    /// Snapshots the interval counters, tagged with the interval's elapsed
    /// time and the current rate recommendation, and resets them for the
    /// next interval. Sequence state and the recommendation window are not
    /// touched.
    pub fn get_interval_result(&mut self, elapsed_us: u64) -> (r: IntervalResult)
        ensures
            r == spec_snapshot(*old(self), elapsed_us),
            *final(self) == spec_after_snapshot(*old(self)),
    {
        let mut r = self.interval_result;
        r.recommended_bitrate = self.recommend_pps;
        r.time_us = elapsed_us;
        self.interval_result = IntervalResult::default();
        r
    }
}

} // verus!
