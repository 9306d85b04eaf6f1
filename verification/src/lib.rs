//! A UDP throughput and quality measurement library.
//!
//! A sender paces a stream of fixed-format packets at a target bitrate; a
//! receiver reconstructs loss, out-of-order arrival and jitter per
//! measurement interval and aggregates the intervals into a final report.
//! All quantities are carried as integers: wall-clock times in microseconds,
//! pacing deadlines in nanoseconds, jitter in microseconds, rates in
//! packets or bits per second.

use vstd::prelude::*;

pub mod arith;
pub mod clock;
pub mod codec;
pub mod flow;
pub mod pacer;
pub mod report;
pub mod session;

pub use clock::now_micros;
pub use codec::FLAG_DATA;
pub use codec::FLAG_FIN;
pub use codec::HEADER_SIZE;
pub use codec::UdpHeader;
pub use flow::IntervalResult;
pub use flow::UdpData;
pub use pacer::interval_per_packet;
pub use pacer::packet_deadline_ns;
pub use pacer::pace_decision;
pub use pacer::PaceAction;
pub use report::mean;
pub use report::median;
pub use report::TestResult;
pub use session::ChannelRecv;
pub use session::ChannelTryRecv;
pub use session::ClientCommand;
pub use session::ClientSession;
pub use session::DatagramOutcome;
pub use session::PacketKind;
pub use session::ServerCommand;
pub use session::ServerSession;
pub use session::SessionPhase;
pub use session::UdpOptError;

verus! {

} // verus!
