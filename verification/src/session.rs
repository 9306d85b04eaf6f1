//! Session control state machines.
//!
//! A sender and a receiver each move through
//! `AwaitingStart -> Running -> Finished`, with `Failed` reachable from any
//! non-terminal state. Both block on the control channel exactly once
//! before any data transfer and poll it non-blockingly afterwards. The
//! state machines here are pure decision logic: the caller owns sockets,
//! channels and clocks, performs each action, and hands the observed event
//! back in.

use vstd::prelude::*;

use crate::codec::spec_read_header;
use crate::codec::UdpHeader;
use crate::codec::FLAG_FIN;
use crate::codec::HEADER_SIZE;
use crate::flow::spec_after_snapshot;
use crate::flow::spec_process_packet;
use crate::flow::spec_snapshot;
use crate::flow::spec_zero_interval;
use crate::flow::IntervalResult;
use crate::flow::UdpData;
use crate::pacer::interval_per_packet;
use crate::pacer::spec_interval_per_packet_ns;

verus! {

/// Commands that control the sender.
#[derive(Debug, Clone, Copy, PartialEq, Eq, Structural)]
pub enum ClientCommand {
    Start,
    Stop,
}

/// Commands that control the receiver.
#[derive(Debug, Clone, Copy, PartialEq, Eq, Structural)]
pub enum ServerCommand {
    Start,
    Stop,
}

/// The error categories a session can end with. The transport payloads
/// (socket errors and the like) belong to the caller; the category is what
/// the state machines decide on.
#[derive(Debug, Clone, Copy, PartialEq, Eq, Structural)]
pub enum UdpOptError {
    /// Binding the socket failed at construction.
    BindFailed,
    /// Connecting the socket failed at construction.
    ConnectFailed,
    /// A send failed mid-session.
    SendFailed,
    /// A receive failed mid-session.
    RecvFailed,
    /// Configuring the receive timeout failed.
    SocketTimeout,
    /// The random payload source failed.
    FailToGetRandom,
    /// A protocol violation: `Stop` before `Start`, or a second `Start`.
    UnexpectedCommand,
    /// The control channel disconnected while the session still ran.
    ChannelClosed,
}

/// What a blocking control-channel receive produced.
#[derive(Debug, PartialEq, Eq)]
pub enum ChannelRecv<C> {
    /// A command arrived.
    Message(C),
    /// The sending side is gone.
    Disconnected,
}

/// What a non-blocking control-channel poll produced.
#[derive(Debug, PartialEq, Eq)]
pub enum ChannelTryRecv<C> {
    /// A command arrived.
    Message(C),
    /// Nothing was pending.
    Empty,
    /// The sending side is gone.
    Disconnected,
}

/// Where a session stands in its lifecycle.
#[derive(Debug, Clone, Copy, PartialEq, Eq, Structural)]
pub enum SessionPhase {
    /// Constructed; no command seen yet.
    AwaitingStart,
    /// `Start` received; data may flow.
    Running,
    /// Terminated successfully.
    Finished,
    /// Terminated with an error.
    Failed,
}

/// The packet a sender emits next.
#[derive(Debug, Clone, Copy, PartialEq, Eq, Structural)]
pub enum PacketKind {
    /// An ordinary data packet carrying this sequence number.
    Data { seq: u64 },
    /// The final packet; its sequence number equals the count of data
    /// packets sent before it.
    Fin { seq: u64 },
}

/// How the receiver classified one datagram.
#[derive(Debug, Clone, Copy, PartialEq, Eq, Structural)]
pub enum DatagramOutcome {
    /// Shorter than the wire header: not a probe packet, ignored.
    TooShort,
    /// A data packet, accounted in the flow counters.
    Data,
    /// The end-of-stream packet, accounted like any other and ending the
    /// session.
    Fin,
}

/// Send-side session: pacing parameters plus the next sequence number.
#[derive(Debug, Clone, Copy)]
pub struct ClientSession {
    /// Lifecycle state.
    pub phase: SessionPhase,
    /// Sequence number of the next packet; equals the number of data
    /// packets sent so far.
    pub seq: u64,
    /// Configured test duration in microseconds.
    pub duration_us: u64,
    /// Ideal spacing of consecutive packets in nanoseconds.
    pub ipp_ns: u64,
    /// Size of each packet in bytes, header included.
    pub payload_size: usize,
}

impl ClientSession {
    /// A sender configured for `bitrate_bps` bits per second with
    /// `payload_size`-byte packets over `duration_us` microseconds,
    /// awaiting its `Start` command.
    pub fn new(bitrate_bps: u64, payload_size: usize, duration_us: u64) -> (s: Self)
        requires
            payload_size >= HEADER_SIZE,
        ensures
            s.phase == SessionPhase::AwaitingStart,
            s.seq == 0,
            s.duration_us == duration_us,
            s.ipp_ns == spec_interval_per_packet_ns(payload_size as u64, bitrate_bps),
            s.payload_size == payload_size,
    {
        let ipp_ns = interval_per_packet(payload_size, bitrate_bps);
        Self { phase: SessionPhase::AwaitingStart, seq: 0, duration_us, ipp_ns, payload_size }
    }

    /// Consumes the one blocking control-channel receive that precedes any
    /// data transfer: `Start` begins the run; `Stop` here is a protocol
    /// violation; a disconnected channel is a channel failure.
    pub fn on_start(&mut self, msg: ChannelRecv<ClientCommand>) -> (r: Result<(), UdpOptError>)
        requires
            old(self).phase == SessionPhase::AwaitingStart,
        ensures
            msg == ChannelRecv::<ClientCommand>::Message(ClientCommand::Start) ==> r is Ok
                && final(self).phase == SessionPhase::Running,
            msg == ChannelRecv::<ClientCommand>::Message(ClientCommand::Stop) ==> r == Result::<
                (),
                UdpOptError,
            >::Err(UdpOptError::UnexpectedCommand) && final(self).phase == SessionPhase::Failed,
            msg == ChannelRecv::<ClientCommand>::Disconnected ==> r == Result::<
                (),
                UdpOptError,
            >::Err(UdpOptError::ChannelClosed) && final(self).phase == SessionPhase::Failed,
            final(self).seq == old(self).seq,
            final(self).duration_us == old(self).duration_us,
            final(self).ipp_ns == old(self).ipp_ns,
            final(self).payload_size == old(self).payload_size,
    {
        match msg {
            ChannelRecv::Message(ClientCommand::Start) => {
                self.phase = SessionPhase::Running;
                Result::Ok(())
            },
            ChannelRecv::Message(ClientCommand::Stop) => {
                self.phase = SessionPhase::Failed;
                Result::Err(UdpOptError::UnexpectedCommand)
            },
            ChannelRecv::Disconnected => {
                self.phase = SessionPhase::Failed;
                Result::Err(UdpOptError::ChannelClosed)
            },
        }
    }

    /// What to send next, `elapsed_us` microseconds into the run: a data
    /// packet while the configured duration has not elapsed, else the one
    /// FIN packet, whose sequence number equals the count of data packets
    /// sent. A zero duration therefore yields the FIN at sequence zero at
    /// once.
    pub fn next_packet(&self, elapsed_us: u64) -> (k: PacketKind)
        requires
            self.phase == SessionPhase::Running,
        ensures
            elapsed_us >= self.duration_us ==> k == (PacketKind::Fin { seq: self.seq }),
            elapsed_us < self.duration_us ==> k == (PacketKind::Data { seq: self.seq }),
    {
        if elapsed_us >= self.duration_us {
            PacketKind::Fin { seq: self.seq }
        } else {
            PacketKind::Data { seq: self.seq }
        }
    }

    /// Records that the data packet `self.seq` went out: the next sequence
    /// number follows in strictly increasing order, with no reuse.
    pub fn record_data_sent(&mut self)
        requires
            old(self).phase == SessionPhase::Running,
            old(self).seq < u64::MAX,
        ensures
            *final(self) == (ClientSession { seq: (old(self).seq + 1) as u64, ..*old(self) }),
    {
        self.seq = self.seq + 1;
    }

    /// Records that the FIN packet went out: the session is finished and
    /// `self.seq` stays as the count of data packets that preceded it.
    pub fn record_fin_sent(&mut self)
        requires
            old(self).phase == SessionPhase::Running,
        ensures
            *final(self) == (ClientSession { phase: SessionPhase::Finished, ..*old(self) }),
    {
        self.phase = SessionPhase::Finished;
    }
}

/// Receive-side session: the flow analyzer plus the collected interval
/// records.
#[derive(Debug)]
pub struct ServerSession {
    /// Lifecycle state.
    pub phase: SessionPhase,
    /// Configured length of one measurement interval in microseconds.
    pub interval_us: u64,
    /// The flow analyzer fed by every accepted datagram.
    pub flow: UdpData,
    /// Interval records collected so far.
    pub results: Vec<IntervalResult>,
}

impl ServerSession {
    /// A receiver that snapshots its counters every `interval_us`
    /// microseconds, awaiting its `Start` command.
    pub fn new(interval_us: u64) -> (s: Self)
        ensures
            s.phase == SessionPhase::AwaitingStart,
            s.interval_us == interval_us,
            s.flow.last_seq is None,
            s.flow.prev_transit_us is None,
            s.flow.interval_result == spec_zero_interval(),
            s.flow.period_received == 0,
            s.flow.period_lost == 0,
            s.flow.recommend_pps == 0,
            s.results@ == Seq::<IntervalResult>::empty(),
    {
        Self {
            phase: SessionPhase::AwaitingStart,
            interval_us,
            flow: UdpData::new(),
            results: Vec::new(),
        }
    }

    /// Consumes the one blocking control-channel receive that precedes any
    /// measuring: `Start` begins the run; `Stop` here is a protocol
    /// violation; a disconnected channel is a channel failure.
    pub fn on_start(&mut self, msg: ChannelRecv<ServerCommand>) -> (r: Result<(), UdpOptError>)
        requires
            old(self).phase == SessionPhase::AwaitingStart,
        ensures
            msg == ChannelRecv::<ServerCommand>::Message(ServerCommand::Start) ==> r is Ok
                && final(self).phase == SessionPhase::Running,
            msg == ChannelRecv::<ServerCommand>::Message(ServerCommand::Stop) ==> r == Result::<
                (),
                UdpOptError,
            >::Err(UdpOptError::UnexpectedCommand) && final(self).phase == SessionPhase::Failed,
            msg == ChannelRecv::<ServerCommand>::Disconnected ==> r == Result::<
                (),
                UdpOptError,
            >::Err(UdpOptError::ChannelClosed) && final(self).phase == SessionPhase::Failed,
            final(self).interval_us == old(self).interval_us,
            final(self).flow == old(self).flow,
            final(self).results@ == old(self).results@,
    {
        match msg {
            ChannelRecv::Message(ServerCommand::Start) => {
                self.phase = SessionPhase::Running;
                Result::Ok(())
            },
            ChannelRecv::Message(ServerCommand::Stop) => {
                self.phase = SessionPhase::Failed;
                Result::Err(UdpOptError::UnexpectedCommand)
            },
            ChannelRecv::Disconnected => {
                self.phase = SessionPhase::Failed;
                Result::Err(UdpOptError::ChannelClosed)
            },
        }
    }

    /// Applies one non-blocking control-channel poll, made between
    /// datagram receptions: `Ok(true)` means stop measuring; a second
    /// `Start` is a protocol violation; a disconnected channel is a
    /// channel failure; an empty poll changes nothing.
    pub fn poll_control(&mut self, msg: ChannelTryRecv<ServerCommand>) -> (r: Result<
        bool,
        UdpOptError,
    >)
        requires
            old(self).phase == SessionPhase::Running,
        ensures
            msg == ChannelTryRecv::<ServerCommand>::Message(ServerCommand::Stop) ==> r
                == Result::<bool, UdpOptError>::Ok(true) && final(self).phase
                == SessionPhase::Finished,
            msg == ChannelTryRecv::<ServerCommand>::Empty ==> r == Result::<
                bool,
                UdpOptError,
            >::Ok(false) && final(self).phase == SessionPhase::Running,
            msg == ChannelTryRecv::<ServerCommand>::Message(ServerCommand::Start) ==> r
                == Result::<bool, UdpOptError>::Err(UdpOptError::UnexpectedCommand)
                && final(self).phase == SessionPhase::Failed,
            msg == ChannelTryRecv::<ServerCommand>::Disconnected ==> r == Result::<
                bool,
                UdpOptError,
            >::Err(UdpOptError::ChannelClosed) && final(self).phase == SessionPhase::Failed,
            final(self).interval_us == old(self).interval_us,
            final(self).flow == old(self).flow,
            final(self).results@ == old(self).results@,
    {
        match msg {
            ChannelTryRecv::Message(ServerCommand::Stop) => {
                self.phase = SessionPhase::Finished;
                Result::Ok(true)
            },
            ChannelTryRecv::Message(ServerCommand::Start) => {
                self.phase = SessionPhase::Failed;
                Result::Err(UdpOptError::UnexpectedCommand)
            },
            ChannelTryRecv::Empty => Result::Ok(false),
            ChannelTryRecv::Disconnected => {
                self.phase = SessionPhase::Failed;
                Result::Err(UdpOptError::ChannelClosed)
            },
        }
    }

    /// Consumes one received datagram of `len` bytes (held in the first
    /// `len` bytes of `buf`), `now_us` microseconds into the session.
    /// Anything shorter than the wire header is silently ignored; any
    /// other datagram is decoded and accounted by the flow analyzer, and a
    /// FIN flag finishes the session.
    pub fn on_datagram(&mut self, len: usize, buf: &Vec<u8>, now_us: u64) -> (out:
        DatagramOutcome)
        requires
            old(self).phase == SessionPhase::Running,
            len <= buf@.len(),
        ensures
            len < HEADER_SIZE ==> out == DatagramOutcome::TooShort && *final(self) == *old(self),
            len >= HEADER_SIZE ==> {
                let h = spec_read_header(buf@);
                &&& final(self).flow == spec_process_packet(old(self).flow, len as u64, h, now_us)
                &&& final(self).results@ == old(self).results@
                &&& final(self).interval_us == old(self).interval_us
                &&& (h.flags == FLAG_FIN ==> out == DatagramOutcome::Fin && final(self).phase
                    == SessionPhase::Finished)
                &&& (h.flags != FLAG_FIN ==> out == DatagramOutcome::Data && final(self).phase
                    == SessionPhase::Running)
            },
    {
        if len < HEADER_SIZE {
            return DatagramOutcome::TooShort;
        }
        let header = UdpHeader::read_header(buf);
        self.flow.process_packet(len, &header, now_us);
        if header.flags == FLAG_FIN {
            self.phase = SessionPhase::Finished;
            DatagramOutcome::Fin
        } else {
            DatagramOutcome::Data
        }
    }

    /// Closes the current measurement interval `elapsed_us` microseconds
    /// after it began: appends the snapshot to the collected records and
    /// resets the interval counters.
    pub fn take_interval(&mut self, elapsed_us: u64)
        requires
            old(self).phase == SessionPhase::Running,
        ensures
            final(self).results@ == old(self).results@.push(
                spec_snapshot(old(self).flow, elapsed_us),
            ),
            final(self).flow == spec_after_snapshot(old(self).flow),
            final(self).phase == old(self).phase,
            final(self).interval_us == old(self).interval_us,
    {
        let r = self.flow.get_interval_result(elapsed_us);
        self.results.push(r);
    }

    /// Hands out the collected interval records at session end. A run
    /// shorter than one interval never crossed an interval boundary; it
    /// still yields one record, snapshotted at `elapsed_us`. The session
    /// keeps nothing back.
    pub fn finish(&mut self, elapsed_us: u64) -> (r: Vec<IntervalResult>)
        requires
            old(self).phase == SessionPhase::Finished,
        ensures
            r@.len() >= 1,
            old(self).results@.len() > 0 ==> r@ == old(self).results@ && final(self).flow == old(
                self,
            ).flow,
            old(self).results@.len() == 0 ==> r@ == seq![
                spec_snapshot(old(self).flow, elapsed_us),
            ] && final(self).flow == spec_after_snapshot(old(self).flow),
            final(self).results@ == Seq::<IntervalResult>::empty(),
            final(self).phase == old(self).phase,
            final(self).interval_us == old(self).interval_us,
    {
        if self.results.len() == 0 {
            let r = self.flow.get_interval_result(elapsed_us);
            self.results.push(r);
            proof {
                assert(self.results@ =~= seq![spec_snapshot(old(self).flow, elapsed_us)]);
            }
        }
        let ghost pre = self.results@;
        let out = self.results.split_off(0);
        proof {
            assert(out@ =~= pre);
            assert(self.results@ =~= Seq::<IntervalResult>::empty());
        }
        out
    }
}

} // verus!
