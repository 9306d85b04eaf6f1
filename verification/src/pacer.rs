//! Send-side packet pacer.
//!
//! The pacer turns a target bitrate and a payload size into one absolute
//! send deadline per packet, at least one packet per second however small
//! the requested rate. All deadlines are in nanoseconds relative to the
//! session start; the caller owns the clock and performs the actual
//! sleeping, one `pace_decision` at a time.

use vstd::prelude::*;

verus! {

/// One second in nanoseconds, the longest inter-packet interval.
pub const NANOS_PER_SECOND: u64 = 1_000_000_000;

/// Remaining time above which the pacer asks for a coarse sleep.
pub const COARSE_WAIT_NS: u64 = 200_000;

/// Margin subtracted from a coarse sleep to avoid systematic oversleep.
pub const OVERSLEEP_MARGIN_NS: u64 = 100_000;

/// The ideal spacing of consecutive packets in nanoseconds: the time one
/// packet's bits take at the target bitrate, capped at one second so that
/// even a near-zero bitrate still sends one packet per second.
pub open spec fn spec_interval_per_packet_ns(payload_size: u64, bitrate_bps: u64) -> u64
    recommends
        payload_size >= 1,
{
    if bitrate_bps <= payload_size * 8 {
        NANOS_PER_SECOND
    } else {
        (payload_size * 8 * 1_000_000_000 / (bitrate_bps as int)) as u64
    }
}

/// The ideal spacing of consecutive packets for `payload_size`-byte
/// packets (header included) at `bitrate_bps` bits per second. Never
/// longer than one second.
pub fn interval_per_packet(payload_size: usize, bitrate_bps: u64) -> (ipp_ns: u64)
    requires
        payload_size >= 1,
    ensures
        ipp_ns == spec_interval_per_packet_ns(payload_size as u64, bitrate_bps),
        ipp_ns <= NANOS_PER_SECOND,
{
    let bits: u128 = (payload_size as u128) * 8;
    if (bitrate_bps as u128) <= bits {
        NANOS_PER_SECOND
    } else {
        proof {
            assert((payload_size as int) * 8 * 1_000_000_000 / (bitrate_bps as int)
                < 1_000_000_000) by (nonlinear_arith)
                requires
                    0 < (payload_size as int) * 8 < bitrate_bps,
            ;
        }
        (bits * 1_000_000_000 / (bitrate_bps as u128)) as u64
    }
}

/// The absolute send deadline of packet `seq`, in nanoseconds after the
/// session start: deadlines advance by exactly one inter-packet interval
/// per sequence number.
pub fn packet_deadline_ns(seq: u64, ipp_ns: u64) -> (deadline: u64)
    requires
        seq * ipp_ns <= u64::MAX,
    ensures
        deadline == seq * ipp_ns,
{
    seq * ipp_ns
}

/// Consecutive packets' deadlines increase monotonically, by exactly one
/// inter-packet interval each.
pub proof fn lemma_deadline_monotone(seq: u64, ipp_ns: u64)
    ensures
        (seq + 1) * ipp_ns == seq * ipp_ns + ipp_ns,
        seq * ipp_ns <= (seq + 1) * ipp_ns,
{
    assert((seq + 1) * ipp_ns == seq * ipp_ns + ipp_ns) by (nonlinear_arith);
}

/// What to do on the way to a send deadline.
#[derive(Debug, Clone, Copy, PartialEq, Eq, Structural)]
pub enum PaceAction {
    /// The deadline has passed: send now, with zero wait.
    Proceed,
    /// Plenty of time left: sleep coarsely for `ns` nanoseconds.
    CoarseSleep { ns: u64 },
    /// The deadline is close: yield briefly and ask again.
    SpinYield,
}

/// Decides how to reach `deadline_ns` from `now_ns` (both nanoseconds
/// since session start): a deadline already in the past means an immediate
/// return; a remainder above `COARSE_WAIT_NS` means a coarse sleep
/// `OVERSLEEP_MARGIN_NS` short of the deadline; anything closer is spun
/// away. The caller repeats until `Proceed`.
pub fn pace_decision(now_ns: u64, deadline_ns: u64) -> (action: PaceAction)
    ensures
        now_ns >= deadline_ns ==> action == PaceAction::Proceed,
        now_ns < deadline_ns && deadline_ns - now_ns > COARSE_WAIT_NS ==> action == (
        PaceAction::CoarseSleep { ns: (deadline_ns - now_ns - OVERSLEEP_MARGIN_NS) as u64 }),
        now_ns < deadline_ns && deadline_ns - now_ns <= COARSE_WAIT_NS ==> action
            == PaceAction::SpinYield,
{
    if now_ns >= deadline_ns {
        PaceAction::Proceed
    } else {
        let remaining = deadline_ns - now_ns;
        if remaining > COARSE_WAIT_NS {
            PaceAction::CoarseSleep { ns: remaining - OVERSLEEP_MARGIN_NS }
        } else {
            PaceAction::SpinYield
        }
    }
}

} // verus!
