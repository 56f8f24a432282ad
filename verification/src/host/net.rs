//! The host's side of a session: the shared controls that the user interface
//! sets, and the decisions of the session with one receiver.
use vstd::prelude::*;

use crate::common::packet::{decode_result, now_us, AudioPacket, MAX_FRAMES};
use crate::common::protocol::{
    ClientHello, HandshakeResult, HostMessage, ReceiverMessage, ServerHello, SessionError,
    PROTOCOL_VERSION,
};
use crate::common::session::{
    client_action, client_next, next_seq, one_way_latency, ClientAction, ClientEvent, ClientPhase,
    ClientSession,
};
use crate::common::text::{append_decimal, decimal};
use vstd::arithmetic::div_mod::{
    lemma_add_mod_noop_right,
    lemma_add_mod_noop, lemma_fundamental_div_mod, lemma_fundamental_div_mod_converse,
};

verus! {

// ---------------------------------------------------------------------------
// Shared controls (written by the user interface, read by the session)
// ---------------------------------------------------------------------------

/// What the user interface tells the running session.
#[derive(Debug, Clone, PartialEq, Eq)]
pub struct HostControl {
    /// Whether captured audio is streamed to the receiver.
    pub recording: bool,
    /// The capture device.
    pub selected_device: Option<String>,
    /// The device that plays the DAW's return stream.
    pub output_device: Option<String>,
    /// Whether the DAW's return stream is played.
    pub monitoring: bool,
}

impl HostControl {
    /// Nothing recorded, monitored or selected.
    pub fn new() -> (c: HostControl)
        ensures
            c == (HostControl {
                recording: false,
                selected_device: None,
                output_device: None,
                monitoring: false,
            }),
    {
        HostControl { recording: false, selected_device: None, output_device: None, monitoring: false }
    }
}

/// Starts or stops streaming captured audio.
pub fn set_recording(control: &mut HostControl, val: bool)
    ensures
        *final(control) == (HostControl { recording: val, ..*old(control) }),
{
    control.recording = val;
}

/// Selects the capture device.
pub fn set_device(control: &mut HostControl, dev: Option<String>)
    ensures
        *final(control) == (HostControl { selected_device: dev, ..*old(control) }),
{
    control.selected_device = dev;
}

/// Selects the device that plays the DAW's return stream.
pub fn set_output_device(control: &mut HostControl, dev: Option<String>)
    ensures
        *final(control) == (HostControl { output_device: dev, ..*old(control) }),
{
    control.output_device = dev;
}

/// Starts or stops playing the DAW's return stream.
pub fn set_monitoring(control: &mut HostControl, val: bool)
    ensures
        *final(control) == (HostControl { monitoring: val, ..*old(control) }),
{
    control.monitoring = val;
}

/// A session ended: streaming stops.
pub fn end_of_session(control: &mut HostControl)
    ensures
        *final(control) == (HostControl { recording: false, ..*old(control) }),
{
    control.recording = false;
}

// ---------------------------------------------------------------------------
// Handshake
// ---------------------------------------------------------------------------

/// The hello that the host sends as soon as a receiver connects: the protocol
/// version, the capture device's sample rate and name, one channel.
pub fn server_hello(sample_rate: u32, device_name: String, return_udp_port: u16) -> (h: ServerHello)
    ensures
        h == (ServerHello {
            version: PROTOCOL_VERSION,
            sample_rate,
            channels: 1,
            device_name,
            return_udp_port,
        }),
{
    ServerHello { version: PROTOCOL_VERSION, sample_rate, channels: 1, device_name, return_udp_port }
}

/// The address to which audio for a receiver goes: its IP, a colon, and the
/// UDP port that its hello announced.
pub fn audio_destination(peer_ip: &str, hello: &ClientHello) -> (r: String)
    ensures
        r@ == peer_ip@ + ":"@ + decimal(hello.udp_listen_port as nat),
{
    let mut out = String::from_str(peer_ip);
    out.append(":");
    append_decimal(&mut out, hello.udp_listen_port as u64);
    out
}

/// The capture device of a session: the selected one, or, when none is
/// selected, the text with which the session is refused.
pub fn session_device(device: &Option<String>) -> (r: Result<String, String>)
    ensures
        match device {
            Some(d) => r matches Ok(name) && name@ == d@,
            None => r matches Err(text) && text@ == "no audio device selected"@,
        },
{
    match device {
        Some(d) => Ok(d.clone()),
        None => Err(String::from_str("no audio device selected")),
    }
}

// ---------------------------------------------------------------------------
// Session
// ---------------------------------------------------------------------------

/// How far the session with a receiver has come.
#[derive(Debug, Clone, Copy, PartialEq, Eq, Structural)]
pub enum HostPhase {
    /// `ServerHello` sent; waiting for the receiver's `ClientHello`.
    AwaitingClientHello,
    /// Handshake done: audio may flow.
    Streaming,
    /// The session is over.
    Finished,
}

/// The state of the session with one receiver.
#[derive(Debug, Clone, Copy, PartialEq, Eq, Structural)]
pub struct HostSession {
    pub phase: HostPhase,
    /// Sequence number of the next audio packet.
    pub seq: u32,
    /// Packets handed to the network (wraps, as the release build does).
    pub packets_sent: u64,
    /// Packets the network refused (wraps, as the release build does).
    pub packets_dropped: u32,
    /// Captured samples left until the next level report.
    pub level_countdown: usize,
}

/// What happened, as the caller reports it.
#[derive(Debug, Clone, PartialEq, Eq)]
pub enum HostEvent {
    /// The receiver's `ClientHello` arrived.
    ClientHelloReceived(ClientHello),
    /// A message from the receiver arrived.
    ReceiverMessageReceived(ReceiverMessage),
    /// The statistics timer fired; the capture level is given in dBFS x 100.
    StatsDue { level_dbfs_x100: i16 },
    /// Reading the control channel failed, with this text.
    ReaderFailed(String),
    /// The receiver closed the control channel.
    ReaderClosed,
    /// The capture device stopped delivering audio.
    AudioClosed,
}

/// What the caller is to do next.
#[derive(Debug, Clone, PartialEq, Eq)]
pub enum HostAction {
    /// Send this handshake result; the receiver is connected and audio may
    /// flow to it.
    Accept(HandshakeResult),
    /// Send this handshake result, then end the session with the error text.
    Refuse(HandshakeResult, String),
    /// Send this message to the receiver.
    Send(HostMessage),
    /// End the session cleanly.
    Finish,
    /// End the session with this error text.
    Fail(String),
    /// Nothing to do.
    Ignore,
}

/// `n` plus one, wrapping at `u64::MAX`.
pub open spec fn next_count(n: u64) -> u64 {
    if n == u64::MAX {
        0
    } else {
        (n + 1) as u64
    }
}

/// `seq` advanced by `k`, wrapping at `u32::MAX`.
pub open spec fn seq_after(seq: u32, k: int) -> u32 {
    ((seq + k) % 0x1_0000_0000) as u32
}

/// Advancing by one more is one wrapping increment.
pub proof fn lemma_seq_after_step(seq: u32, k: int)
    requires
        0 <= k,
    ensures
        next_seq(seq_after(seq, k)) == seq_after(seq, k + 1),
{
    lemma_add_mod_noop(seq + k, 1, 0x1_0000_0000);
}

/// Numbering continues across calls: advancing by `a`, then by `b`, is
/// advancing by `a + b`.
pub proof fn lemma_seq_after_compose(seq: u32, a: int, b: int)
    requires
        0 <= a,
        0 <= b,
    ensures
        seq_after(seq_after(seq, a), b) == seq_after(seq, a + b),
{
    lemma_add_mod_noop_right(b, seq + a, 0x1_0000_0000);
}

/// The state that follows `s` on event `e`.
pub open spec fn host_next(s: HostSession, e: HostEvent) -> HostSession {
    let finished = HostSession { phase: HostPhase::Finished, ..s };
    match s.phase {
        HostPhase::Finished => s,
        HostPhase::AwaitingClientHello => match e {
            HostEvent::ClientHelloReceived(h) => if h.version == PROTOCOL_VERSION {
                HostSession { phase: HostPhase::Streaming, ..s }
            } else {
                finished
            },
            HostEvent::ReaderFailed(_) => finished,
            HostEvent::ReaderClosed => finished,
            _ => s,
        },
        HostPhase::Streaming => match e {
            HostEvent::ReceiverMessageReceived(ReceiverMessage::Disconnect) => finished,
            HostEvent::ReaderFailed(_) => finished,
            HostEvent::ReaderClosed => finished,
            HostEvent::AudioClosed => finished,
            _ => s,
        },
    }
}

/// Whether `a` is the action that event `e` calls for in state `s`.
pub open spec fn host_action(s: HostSession, e: HostEvent, a: HostAction) -> bool {
    match s.phase {
        HostPhase::Finished => a == HostAction::Ignore,
        HostPhase::AwaitingClientHello => match e {
            HostEvent::ClientHelloReceived(h) => if h.version == PROTOCOL_VERSION {
                a == HostAction::Accept(HandshakeResult::Ready)
            } else {
                a matches HostAction::Refuse(r, t) && r == HandshakeResult::Error(
                    SessionError::VersionMismatch { got: h.version, expected: PROTOCOL_VERSION },
                ) && t@ == "protocol version mismatch"@
            },
            HostEvent::ReaderFailed(t) => a matches HostAction::Fail(u) && u@ == t@,
            HostEvent::ReaderClosed => a matches HostAction::Fail(u) && u@ == "connection closed during handshake"@,
            _ => a == HostAction::Ignore,
        },
        HostPhase::Streaming => match e {
            HostEvent::ReceiverMessageReceived(ReceiverMessage::Ping { seq, timestamp_us }) => a
                == HostAction::Send(HostMessage::Pong { seq, timestamp_us }),
            HostEvent::ReceiverMessageReceived(ReceiverMessage::Disconnect) => a
                == HostAction::Finish,
            HostEvent::StatsDue { level_dbfs_x100 } => a == HostAction::Send(
                HostMessage::StreamStats {
                    packets_sent: s.packets_sent,
                    packets_dropped: s.packets_dropped,
                    level_dbfs_x100,
                },
            ),
            HostEvent::ReaderFailed(t) => a matches HostAction::Fail(u) && u@ == t@,
            HostEvent::ReaderClosed => a == HostAction::Finish,
            HostEvent::AudioClosed => a matches HostAction::Fail(u) && u@ == "audio device closed"@,
            _ => a == HostAction::Ignore,
        },
    }
}

/// Number of packets that `n` samples take, `MAX_FRAMES` to a packet.
pub open spec fn chunk_count(n: nat) -> nat {
    ((n + MAX_FRAMES - 1) / MAX_FRAMES as int) as nat
}

/// The samples of packet `k` of `frames`: the `k`-th run of `MAX_FRAMES`
/// samples, the last one shorter.
pub open spec fn chunk(frames: Seq<u32>, k: int) -> Seq<u32> {
    let start = k * MAX_FRAMES;
    let end = if start + MAX_FRAMES <= frames.len() {
        start + MAX_FRAMES
    } else {
        frames.len() as int
    };
    frames.subrange(start, end)
}

/// Once a session is over, every event is ignored and it stays over.
pub proof fn lemma_finished_host_session_ignores(s: HostSession, e: HostEvent, a: HostAction)
    requires
        s.phase == HostPhase::Finished,
        host_action(s, e, a),
    ensures
        host_next(s, e) == s,
        a == HostAction::Ignore,
{
}

/// A failed read of the control channel ends every host session that has
/// not ended yet, so no audio goes on to a receiver that is gone; the session
/// fails with the reader's error text.
pub proof fn lemma_host_read_failure_ends_session(s: HostSession, t: String, a: HostAction)
    requires
        s.phase != HostPhase::Finished,
        host_action(s, HostEvent::ReaderFailed(t), a),
    ensures
        host_next(s, HostEvent::ReaderFailed(t)).phase == HostPhase::Finished,
        host_next(s, HostEvent::ReaderFailed(t)).seq == s.seq,
        a matches HostAction::Fail(u) && u@ == t@,
{
}

/// The receiver closing the control channel ends every host session that has
/// not ended yet: cleanly while streaming, with an error before the
/// receiver's hello.
pub proof fn lemma_host_close_ends_session(s: HostSession, a: HostAction)
    requires
        s.phase != HostPhase::Finished,
        host_action(s, HostEvent::ReaderClosed, a),
    ensures
        host_next(s, HostEvent::ReaderClosed).phase == HostPhase::Finished,
        s.phase == HostPhase::Streaming ==> a == HostAction::Finish,
        s.phase == HostPhase::AwaitingClientHello ==> (a matches HostAction::Fail(u) && u@
            == "connection closed during handshake"@),
{
}

/// Once a session has ended, no event starts it streaming again: a finished
/// session packetizes nothing.
pub proof fn lemma_finished_host_session_stays_finished(s: HostSession, e: HostEvent)
    requires
        s.phase == HostPhase::Finished,
    ensures
        host_next(s, e).phase == HostPhase::Finished,
{
}

/// Every packet holds between one and `MAX_FRAMES` samples, and sample `i` of
/// the capture is sample `i % MAX_FRAMES` of packet `i / MAX_FRAMES`: the
/// packets hold the capture in order, each sample once.
pub proof fn lemma_chunks_partition(frames: Seq<u32>)
    ensures
        forall|k: int|
            0 <= k < chunk_count(frames.len()) ==> 1 <= #[trigger] chunk(frames, k).len()
                <= MAX_FRAMES,
        forall|i: int|
            0 <= i < frames.len() ==> i / (MAX_FRAMES as int) < chunk_count(frames.len()) && #[trigger] chunk(
                frames,
                i / (MAX_FRAMES as int),
            )[i % (MAX_FRAMES as int)] == frames[i],
{
    let n = frames.len() as int;
    let m = MAX_FRAMES as int;
    assert forall|k: int| 0 <= k < chunk_count(frames.len()) implies 1 <= #[trigger] chunk(
        frames,
        k,
    ).len() <= MAX_FRAMES by {
        lemma_fundamental_div_mod(n + m - 1, m);
    }
    assert forall|i: int| 0 <= i < frames.len() implies i / m < chunk_count(frames.len())
        && #[trigger] chunk(frames, i / m)[i % m] == frames[i] by {
        lemma_fundamental_div_mod(i, m);
        lemma_fundamental_div_mod(n + m - 1, m);
    }
}

/// A hello that a receiver or plugin sends is accepted by the host, and the
/// host's `Ready` brings the session into streaming: both ends speak the
/// same protocol version.
pub proof fn lemma_handshake_completes(
    c: ClientSession,
    output_sample_rate: u32,
    udp_listen_port: u16,
    hello_action: ClientAction,
    h: HostSession,
    host_reply: HostAction,
)
    requires
        c.phase == ClientPhase::AwaitingLocalSetup,
        client_action(c, ClientEvent::LocalReady { output_sample_rate, udp_listen_port }, hello_action),
        h.phase == HostPhase::AwaitingClientHello,
        hello_action matches ClientAction::SendHello(hello) && host_action(
            h,
            HostEvent::ClientHelloReceived(hello),
            host_reply,
        ),
    ensures
        host_reply == HostAction::Accept(HandshakeResult::Ready),
        hello_action matches ClientAction::SendHello(hello) && host_next(
            h,
            HostEvent::ClientHelloReceived(hello),
        ).phase == HostPhase::Streaming,
        client_next(
            client_next(c, ClientEvent::LocalReady { output_sample_rate, udp_listen_port }),
            ClientEvent::HandshakeReceived(HandshakeResult::Ready),
        ).phase == ClientPhase::Streaming,
{
}

/// A hello of another protocol version is refused, and the refusal names
/// the version received and the one expected.
pub proof fn lemma_version_mismatch_refused(h: HostSession, hello: ClientHello, a: HostAction)
    requires
        h.phase == HostPhase::AwaitingClientHello,
        hello.version != PROTOCOL_VERSION,
        host_action(h, HostEvent::ClientHelloReceived(hello), a),
    ensures
        a matches HostAction::Refuse(r, _) && r == HandshakeResult::Error(
            SessionError::VersionMismatch { got: hello.version, expected: PROTOCOL_VERSION },
        ),
        host_next(h, HostEvent::ClientHelloReceived(hello)).phase == HostPhase::Finished,
{
}

/// The host echoes a ping's sequence number and timestamp, so the latency
/// that the receiver measures from the echo is half the time since it sent
/// the ping.
pub proof fn lemma_ping_echo_latency(
    h: HostSession,
    c: ClientSession,
    seq: u32,
    sent_us: u64,
    now_us: u64,
    echo: HostAction,
    measured: ClientAction,
)
    requires
        h.phase == HostPhase::Streaming,
        c.phase == ClientPhase::Streaming,
        host_action(
            h,
            HostEvent::ReceiverMessageReceived(ReceiverMessage::Ping { seq, timestamp_us: sent_us }),
            echo,
        ),
        echo matches HostAction::Send(msg) && client_action(
            c,
            ClientEvent::HostMessageReceived { msg, now_us },
            measured,
        ),
    ensures
        echo == HostAction::Send(HostMessage::Pong { seq, timestamp_us: sent_us }),
        measured == ClientAction::LatencyMeasured(one_way_latency(now_us, sent_us)),
{
}

impl HostSession {
    /// A session whose `ServerHello` has been sent.
    pub fn new() -> (s: HostSession)
        ensures
            s == (HostSession {
                phase: HostPhase::AwaitingClientHello,
                seq: 0,
                packets_sent: 0,
                packets_dropped: 0,
                level_countdown: 0,
            }),
    {
        HostSession {
            phase: HostPhase::AwaitingClientHello,
            seq: 0,
            packets_sent: 0,
            packets_dropped: 0,
            level_countdown: 0,
        }
    }

    /// Takes one event: moves to the next state and says what to do.
    pub fn step(&mut self, e: HostEvent) -> (a: HostAction)
        ensures
            *final(self) == host_next(*old(self), e),
            host_action(*old(self), e, a),
            e matches HostEvent::ReaderFailed(t) ==> (old(self).phase != HostPhase::Finished ==> (
            final(self).phase == HostPhase::Finished && (a matches HostAction::Fail(u) && u@
                == t@))),
            e is ReaderClosed && old(self).phase != HostPhase::Finished ==> final(self).phase
                == HostPhase::Finished,
            e is ReaderClosed && old(self).phase == HostPhase::Streaming ==> a
                == HostAction::Finish,
    {
        let finished = HostSession { phase: HostPhase::Finished, ..*self };
        match self.phase {
            HostPhase::Finished => HostAction::Ignore,
            HostPhase::AwaitingClientHello => match e {
                HostEvent::ClientHelloReceived(h) => {
                    if h.version != PROTOCOL_VERSION {
                        *self = finished;
                        HostAction::Refuse(
                            HandshakeResult::Error(
                                SessionError::VersionMismatch {
                                    got: h.version,
                                    expected: PROTOCOL_VERSION,
                                },
                            ),
                            String::from_str("protocol version mismatch"),
                        )
                    } else {
                        self.phase = HostPhase::Streaming;
                        HostAction::Accept(HandshakeResult::Ready)
                    }
                },
                HostEvent::ReaderFailed(t) => {
                    *self = finished;
                    HostAction::Fail(t)
                },
                HostEvent::ReaderClosed => {
                    *self = finished;
                    HostAction::Fail(String::from_str("connection closed during handshake"))
                },
                _ => HostAction::Ignore,
            },
            HostPhase::Streaming => match e {
                HostEvent::ReceiverMessageReceived(ReceiverMessage::Ping { seq, timestamp_us }) => {
                    HostAction::Send(HostMessage::Pong { seq, timestamp_us })
                },
                HostEvent::ReceiverMessageReceived(ReceiverMessage::Disconnect) => {
                    *self = finished;
                    HostAction::Finish
                },
                HostEvent::StatsDue { level_dbfs_x100 } => HostAction::Send(
                    HostMessage::StreamStats {
                        packets_sent: self.packets_sent,
                        packets_dropped: self.packets_dropped,
                        level_dbfs_x100,
                    },
                ),
                HostEvent::ReaderFailed(t) => {
                    *self = finished;
                    HostAction::Fail(t)
                },
                HostEvent::ReaderClosed => {
                    *self = finished;
                    HostAction::Finish
                },
                HostEvent::AudioClosed => {
                    *self = finished;
                    HostAction::Fail(String::from_str("audio device closed"))
                },
                _ => HostAction::Ignore,
            },
        }
    }

    /// Counts down the captured samples until the next level report: `true`
    /// when a report is due, and the count starts again from a tenth of a
    /// second of samples.
    pub fn level_report_due(&mut self, frames: usize, sample_rate: u32) -> (due: bool)
        ensures
            due == (old(self).level_countdown <= frames),
            final(self).level_countdown == if due {
                (sample_rate / 10) as usize
            } else {
                (old(self).level_countdown - frames) as usize
            },
            final(self).phase == old(self).phase,
            final(self).seq == old(self).seq,
            final(self).packets_sent == old(self).packets_sent,
            final(self).packets_dropped == old(self).packets_dropped,
    {
        self.level_countdown = self.level_countdown.saturating_sub(frames);
        if self.level_countdown == 0 {
            self.level_countdown = (sample_rate / 10) as usize;
            true
        } else {
            false
        }
    }

    /// Counts one packet: sent when the network took it, dropped otherwise.
    pub fn record_delivery(&mut self, delivered: bool)
        ensures
            delivered ==> *final(self) == (HostSession {
                packets_sent: next_count(old(self).packets_sent),
                ..*old(self)
            }),
            !delivered ==> *final(self) == (HostSession {
                packets_dropped: next_seq(old(self).packets_dropped),
                ..*old(self)
            }),
    {
        if delivered {
            self.packets_sent = self.packets_sent.wrapping_add(1);
        } else {
            self.packets_dropped = self.packets_dropped.wrapping_add(1);
        }
    }

    /// Splits captured samples into datagrams of at most `MAX_FRAMES` samples
    /// each, numbered from the next sequence number on and stamped with the
    /// clock. Nothing is sent while not recording or before the handshake.
    pub fn packetize(&mut self, frames: &[u32], recording: bool) -> (datagrams: Vec<Vec<u8>>)
        ensures
            !(recording && old(self).phase == HostPhase::Streaming) ==> datagrams@.len() == 0
                && *final(self) == *old(self),
            recording && old(self).phase == HostPhase::Streaming ==> {
                &&& datagrams@.len() == chunk_count(frames@.len())
                &&& forall|k: int|
                    0 <= k < datagrams@.len() ==> (decode_result(#[trigger] datagrams@[k]@) matches Ok(
                        p,
                    ) && p.seq == seq_after(old(self).seq, k) && p.samples == chunk(frames@, k))
                &&& *final(self) == (HostSession {
                    seq: seq_after(old(self).seq, datagrams@.len() as int),
                    ..*old(self)
                })
            },
    {
        let mut datagrams: Vec<Vec<u8>> = Vec::new();
        if !(recording && self.phase == HostPhase::Streaming) {
            return datagrams;
        }
        let ghost s0 = *self;
        let n = frames.len();
        let mut start: usize = 0;
        let ghost mut k: int = 0;
        assert(self.seq == seq_after(s0.seq, 0));
        while start < n
            invariant
                n == frames@.len(),
                start == k * MAX_FRAMES || (start == n && k * MAX_FRAMES >= n),
                0 <= k,
                k > 0 ==> (k - 1) * MAX_FRAMES < n,
                datagrams@.len() == k,
                *self == (HostSession { seq: seq_after(s0.seq, k), ..s0 }),
                forall|j: int|
                    0 <= j < k ==> (decode_result(#[trigger] datagrams@[j]@) matches Ok(p) && p.seq
                        == seq_after(s0.seq, j) && p.samples == chunk(frames@, j)),
            decreases n - start,
        {
            let end = if n - start >= MAX_FRAMES {
                start + MAX_FRAMES
            } else {
                n
            };
            let mut samples: Vec<u32> = Vec::with_capacity(end - start);
            let mut i: usize = start;
            while i < end
                invariant
                    start <= i <= end,
                    end <= n,
                    n == frames@.len(),
                    samples@ == frames@.subrange(start as int, i as int),
                decreases end - i,
            {
                samples.push(frames[i]);
                assert(samples@ =~= frames@.subrange(start as int, i + 1));
                i = i + 1;
            }
            assert(samples@ == chunk(frames@, k));
            let pkt = AudioPacket { seq: self.seq, timestamp_us: now_us(), samples };
            proof {
                crate::common::packet::lemma_decode_of_encode(pkt@);
                lemma_seq_after_step(s0.seq, k);
            }
            let bytes = match pkt.encode() {
                Ok(b) => b,
                Err(_) => Vec::new(),
            };
            datagrams.push(bytes);
            self.seq = self.seq.wrapping_add(1);
            start = end;
            proof {
                k = k + 1;
            }
        }
        proof {
            lemma_fundamental_div_mod_converse(
                n + MAX_FRAMES - 1,
                MAX_FRAMES as int,
                k,
                n + MAX_FRAMES - 1 - k * MAX_FRAMES,
            );
        }
        datagrams
    }
}

} // verus!
