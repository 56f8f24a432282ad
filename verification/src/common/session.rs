//! The decisions of a session as seen from the side that connects to the
//! host: the receiver, or the plugin.
//!
//! The network, the clock and the audio device stay outside. The caller
//! performs each action that `ClientSession::step` hands back, and feeds
//! what happens next in as an event.
use vstd::prelude::*;

use crate::common::error::PacketError;
use crate::common::packet::{decode_result, AudioPacket};
use crate::common::protocol::{
    session_error_text, ClientHello, HandshakeResult, HostMessage, ReceiverMessage, ServerHello,
    SessionError, PROTOCOL_VERSION,
};
use crate::common::text::{append_decimal, decimal};

verus! {

/// Which program runs the session; it names itself in its error texts.
#[derive(Debug, Clone, Copy, PartialEq, Eq, Structural)]
pub enum ClientRole {
    /// The standalone receiver, which plays into an output device.
    Receiver,
    /// The DAW plugin, which plays into the DAW's buffer.
    Plugin,
}

/// How far a session has come.
#[derive(Debug, Clone, Copy, PartialEq, Eq, Structural)]
pub enum ClientPhase {
    /// Connected over TCP; waiting for the host's `ServerHello`.
    AwaitingServerHello,
    /// The host's hello was accepted; waiting for the local sample rate and
    /// UDP port to announce.
    AwaitingLocalSetup,
    /// `ClientHello` sent; waiting for the host's `HandshakeResult`.
    AwaitingHandshakeResult,
    /// Handshake done: audio flows, pings are sent.
    Streaming,
    /// The session is over.
    Finished,
}

/// The state of a session.
#[derive(Debug, Clone, Copy, PartialEq, Eq, Structural)]
pub struct ClientSession {
    pub role: ClientRole,
    pub phase: ClientPhase,
    /// Sequence number of the next ping.
    pub ping_seq: u32,
    /// Sample rate that the host announced (0 before its hello).
    pub host_sample_rate: u32,
}

/// What happened, as the caller reports it.
#[derive(Debug, Clone, PartialEq, Eq)]
pub enum ClientEvent {
    /// The host's `ServerHello` arrived.
    ServerHelloReceived(ServerHello),
    /// The local output device's sample rate was read and the UDP socket
    /// bound. (The plugin asks for the host's own rate; it ignores this one.)
    LocalReady { output_sample_rate: u32, udp_listen_port: u16 },
    /// The host's `HandshakeResult` arrived.
    HandshakeReceived(HandshakeResult),
    /// The ping timer fired at `now_us`.
    PingDue { now_us: u64 },
    /// A message from the host arrived at `now_us`.
    HostMessageReceived { msg: HostMessage, now_us: u64 },
    /// Reading the control channel failed, with this text.
    ReaderFailed(String),
    /// The host closed the control channel.
    ReaderClosed,
    /// The user asked to disconnect.
    DisconnectRequested,
}

/// What the caller is to do next.
#[derive(Debug, Clone, PartialEq, Eq)]
pub enum ClientAction {
    /// Read the output device's sample rate and bind the UDP socket, then
    /// report `LocalReady`.
    PrepareLocal,
    /// Send this `ClientHello` to the host.
    SendHello(ClientHello),
    /// The handshake is done: report the connection and start playback at
    /// the host's sample rate.
    Connected,
    /// Send this message to the host.
    Send(ReceiverMessage),
    /// Send this message to the host, then end the session cleanly.
    SendAndFinish(ReceiverMessage),
    /// The one-way network latency, in microseconds, was measured.
    LatencyMeasured(u32),
    /// The host reported its stream statistics.
    HostStats { packets_sent: u64, packets_dropped: u32 },
    /// Play these samples (bit patterns of `f32` values).
    Play(Vec<u32>),
    /// A datagram was not a packet; drop it.
    DiscardDatagram(PacketError),
    /// End the session cleanly.
    Finish,
    /// End the session with this error text.
    Fail(String),
    /// Nothing to do.
    Ignore,
}

/// The text of a refused `ServerHello` version.
pub open spec fn version_error_text(role: ClientRole, version: u16) -> Seq<char> {
    "host protocol version "@ + decimal(version as nat) + (match role {
        ClientRole::Receiver => " \u{2014} receiver expects "@,
        ClientRole::Plugin => " \u{2014} plugin expects "@,
    }) + decimal(PROTOCOL_VERSION as nat)
}

/// The text of an error that the host reports during the session.
pub open spec fn host_error_text(e: SessionError) -> Seq<char> {
    "host error: "@ + session_error_text(e)
}

/// One-way latency in microseconds from a pong: half the round trip since the
/// ping's timestamp (none when the clock went back), cut to 32 bits.
pub open spec fn one_way_latency(now_us: u64, ping_timestamp_us: u64) -> u32 {
    let rtt = if now_us >= ping_timestamp_us {
        now_us - ping_timestamp_us
    } else {
        0
    };
    ((rtt / 2) % 0x1_0000_0000) as u32
}

/// The sequence number that follows `seq`, wrapping at `u32::MAX`.
pub open spec fn next_seq(seq: u32) -> u32 {
    if seq == u32::MAX {
        0
    } else {
        (seq + 1) as u32
    }
}

/// The state that follows `s` on event `e`.
pub open spec fn client_next(s: ClientSession, e: ClientEvent) -> ClientSession {
    let finished = ClientSession { phase: ClientPhase::Finished, ..s };
    match s.phase {
        ClientPhase::Finished => s,
        ClientPhase::AwaitingServerHello => match e {
            ClientEvent::ServerHelloReceived(h) => if h.version == PROTOCOL_VERSION {
                ClientSession {
                    phase: ClientPhase::AwaitingLocalSetup,
                    host_sample_rate: h.sample_rate,
                    ..s
                }
            } else {
                finished
            },
            ClientEvent::ReaderFailed(_) => finished,
            ClientEvent::ReaderClosed => finished,
            _ => s,
        },
        ClientPhase::AwaitingLocalSetup => match e {
            ClientEvent::LocalReady { .. } => ClientSession {
                phase: ClientPhase::AwaitingHandshakeResult,
                ..s
            },
            ClientEvent::ReaderFailed(_) => finished,
            ClientEvent::ReaderClosed => finished,
            _ => s,
        },
        ClientPhase::AwaitingHandshakeResult => match e {
            ClientEvent::HandshakeReceived(HandshakeResult::Ready) => ClientSession {
                phase: ClientPhase::Streaming,
                ..s
            },
            ClientEvent::HandshakeReceived(HandshakeResult::Error(_)) => finished,
            ClientEvent::ReaderFailed(_) => finished,
            ClientEvent::ReaderClosed => finished,
            _ => s,
        },
        ClientPhase::Streaming => match e {
            ClientEvent::PingDue { .. } => ClientSession { ping_seq: next_seq(s.ping_seq), ..s },
            ClientEvent::HostMessageReceived { msg: HostMessage::Error(_), .. } => finished,
            ClientEvent::ReaderFailed(_) => finished,
            ClientEvent::ReaderClosed => finished,
            ClientEvent::DisconnectRequested => finished,
            _ => s,
        },
    }
}

/// Whether `a` is the action that event `e` calls for in state `s`.
pub open spec fn client_action(s: ClientSession, e: ClientEvent, a: ClientAction) -> bool {
    match s.phase {
        ClientPhase::Finished => a == ClientAction::Ignore,
        ClientPhase::AwaitingServerHello => match e {
            ClientEvent::ServerHelloReceived(h) => if h.version == PROTOCOL_VERSION {
                a == ClientAction::PrepareLocal
            } else {
                a matches ClientAction::Fail(t) && t@ == version_error_text(s.role, h.version)
            },
            ClientEvent::ReaderFailed(t) => a matches ClientAction::Fail(u) && u@ == t@,
            ClientEvent::ReaderClosed => a matches ClientAction::Fail(u) && u@ == "connection closed during handshake"@,
            _ => a == ClientAction::Ignore,
        },
        ClientPhase::AwaitingLocalSetup => match e {
            ClientEvent::LocalReady { output_sample_rate, udp_listen_port } => a
                == ClientAction::SendHello(
                ClientHello {
                    version: PROTOCOL_VERSION,
                    requested_sample_rate: match s.role {
                        ClientRole::Receiver => output_sample_rate,
                        ClientRole::Plugin => s.host_sample_rate,
                    },
                    udp_listen_port,
                },
            ),
            ClientEvent::ReaderFailed(t) => a matches ClientAction::Fail(u) && u@ == t@,
            ClientEvent::ReaderClosed => a matches ClientAction::Fail(u) && u@ == "connection closed during handshake"@,
            _ => a == ClientAction::Ignore,
        },
        ClientPhase::AwaitingHandshakeResult => match e {
            ClientEvent::HandshakeReceived(HandshakeResult::Ready) => a == ClientAction::Connected,
            ClientEvent::HandshakeReceived(HandshakeResult::Error(err)) => a matches ClientAction::Fail(
                u,
            ) && u@ == session_error_text(err),
            ClientEvent::ReaderFailed(t) => a matches ClientAction::Fail(u) && u@ == t@,
            ClientEvent::ReaderClosed => a matches ClientAction::Fail(u) && u@ == "connection closed during handshake"@,
            _ => a == ClientAction::Ignore,
        },
        ClientPhase::Streaming => match e {
            ClientEvent::PingDue { now_us } => a == ClientAction::Send(
                ReceiverMessage::Ping { seq: s.ping_seq, timestamp_us: now_us },
            ),
            ClientEvent::HostMessageReceived { msg, now_us } => match msg {
                HostMessage::Pong { timestamp_us, .. } => a == ClientAction::LatencyMeasured(
                    one_way_latency(now_us, timestamp_us),
                ),
                HostMessage::StreamStats { packets_sent, packets_dropped, .. } => a
                    == ClientAction::HostStats { packets_sent, packets_dropped },
                HostMessage::Error(err) => a matches ClientAction::Fail(u) && u@ == host_error_text(
                    err,
                ),
            },
            ClientEvent::ReaderFailed(t) => a matches ClientAction::Fail(u) && u@ == t@,
            ClientEvent::ReaderClosed => a == ClientAction::Finish,
            ClientEvent::DisconnectRequested => a == ClientAction::SendAndFinish(
                ReceiverMessage::Disconnect,
            ),
            _ => a == ClientAction::Ignore,
        },
    }
}

/// A failed read of the control channel ends every session that has not
/// ended yet, in whatever phase it is, and the session fails with the
/// reader's error text; nothing else about the session changes.
pub proof fn lemma_read_failure_ends_session(s: ClientSession, t: String, a: ClientAction)
    requires
        s.phase != ClientPhase::Finished,
        client_action(s, ClientEvent::ReaderFailed(t), a),
    ensures
        client_next(s, ClientEvent::ReaderFailed(t)).phase == ClientPhase::Finished,
        client_next(s, ClientEvent::ReaderFailed(t)).role == s.role,
        client_next(s, ClientEvent::ReaderFailed(t)).ping_seq == s.ping_seq,
        a matches ClientAction::Fail(u) && u@ == t@,
{
}

/// The host closing the control channel ends every session that has not
/// ended yet: cleanly once streaming, with an error during the handshake.
pub proof fn lemma_close_ends_session(s: ClientSession, a: ClientAction)
    requires
        s.phase != ClientPhase::Finished,
        client_action(s, ClientEvent::ReaderClosed, a),
    ensures
        client_next(s, ClientEvent::ReaderClosed).phase == ClientPhase::Finished,
        s.phase == ClientPhase::Streaming ==> a == ClientAction::Finish,
        s.phase != ClientPhase::Streaming ==> (a matches ClientAction::Fail(u) && u@
            == "connection closed during handshake"@),
{
}

/// Builds the text of a refused `ServerHello` version.
fn version_error_message(role: ClientRole, version: u16) -> (r: String)
    ensures
        r@ == version_error_text(role, version),
{
    let mut out = String::from_str("host protocol version ");
    append_decimal(&mut out, version as u64);
    match role {
        ClientRole::Receiver => out.append(" \u{2014} receiver expects "),
        ClientRole::Plugin => out.append(" \u{2014} plugin expects "),
    }
    append_decimal(&mut out, PROTOCOL_VERSION as u64);
    out
}

/// Builds the text of an error that the host reports during the session.
fn host_error_message(e: &SessionError) -> (r: String)
    ensures
        r@ == host_error_text(*e),
{
    let mut out = String::from_str("host error: ");
    let m = e.message();
    out.append(m.as_str());
    out
}

/// Once a session is over, every event is ignored and it stays over.
pub proof fn lemma_finished_session_ignores(s: ClientSession, e: ClientEvent, a: ClientAction)
    requires
        s.phase == ClientPhase::Finished,
        client_action(s, e, a),
    ensures
        client_next(s, e) == s,
        a == ClientAction::Ignore,
{
}

/// A session keeps its role.
pub proof fn lemma_role_kept(s: ClientSession, e: ClientEvent)
    ensures
        client_next(s, e).role == s.role,
{
}

/// Audio flows only once the host has answered the hello with `Ready`: the
/// only step into streaming is that answer, awaited after the hello.
pub proof fn lemma_streaming_only_after_ready(s: ClientSession, e: ClientEvent)
    requires
        s.phase != ClientPhase::Streaming,
        client_next(s, e).phase == ClientPhase::Streaming,
    ensures
        s.phase == ClientPhase::AwaitingHandshakeResult,
        e == ClientEvent::HandshakeReceived(HandshakeResult::Ready),
{
}

/// Successive pings carry successive sequence numbers (wrapping at
/// `u32::MAX`), each with the time at which it is sent.
pub proof fn lemma_consecutive_pings(
    s: ClientSession,
    t1: u64,
    t2: u64,
    a1: ClientAction,
    a2: ClientAction,
)
    requires
        s.phase == ClientPhase::Streaming,
        client_action(s, ClientEvent::PingDue { now_us: t1 }, a1),
        client_action(client_next(s, ClientEvent::PingDue { now_us: t1 }), ClientEvent::PingDue { now_us: t2 }, a2),
    ensures
        a1 == ClientAction::Send(ReceiverMessage::Ping { seq: s.ping_seq, timestamp_us: t1 }),
        a2 == ClientAction::Send(
            ReceiverMessage::Ping { seq: next_seq(s.ping_seq), timestamp_us: t2 },
        ),
{
}

impl ClientSession {
    /// A session that has just connected over TCP.
    pub fn new(role: ClientRole) -> (s: ClientSession)
        ensures
            s == (ClientSession {
                role,
                phase: ClientPhase::AwaitingServerHello,
                ping_seq: 0,
                host_sample_rate: 0,
            }),
    {
        ClientSession { role, phase: ClientPhase::AwaitingServerHello, ping_seq: 0, host_sample_rate: 0 }
    }

    /// Takes one event: moves to the next state and says what to do.
    pub fn step(&mut self, e: ClientEvent) -> (a: ClientAction)
        ensures
            *final(self) == client_next(*old(self), e),
            client_action(*old(self), e, a),
            e matches ClientEvent::ReaderFailed(t) ==> (old(self).phase != ClientPhase::Finished
                ==> (final(self).phase == ClientPhase::Finished && (a matches ClientAction::Fail(u)
                && u@ == t@))),
            e is ReaderClosed && old(self).phase != ClientPhase::Finished ==> final(self).phase
                == ClientPhase::Finished,
    {
        let finished = ClientSession { phase: ClientPhase::Finished, ..*self };
        match self.phase {
            ClientPhase::Finished => ClientAction::Ignore,
            ClientPhase::AwaitingServerHello => match e {
                ClientEvent::ServerHelloReceived(h) => {
                    if h.version == PROTOCOL_VERSION {
                        self.phase = ClientPhase::AwaitingLocalSetup;
                        self.host_sample_rate = h.sample_rate;
                        ClientAction::PrepareLocal
                    } else {
                        *self = finished;
                        ClientAction::Fail(version_error_message(self.role, h.version))
                    }
                },
                ClientEvent::ReaderFailed(t) => {
                    *self = finished;
                    ClientAction::Fail(t)
                },
                ClientEvent::ReaderClosed => {
                    *self = finished;
                    ClientAction::Fail(String::from_str("connection closed during handshake"))
                },
                _ => ClientAction::Ignore,
            },
            ClientPhase::AwaitingLocalSetup => match e {
                ClientEvent::LocalReady { output_sample_rate, udp_listen_port } => {
                    self.phase = ClientPhase::AwaitingHandshakeResult;
                    let requested_sample_rate = match self.role {
                        ClientRole::Receiver => output_sample_rate,
                        ClientRole::Plugin => self.host_sample_rate,
                    };
                    ClientAction::SendHello(
                        ClientHello { version: PROTOCOL_VERSION, requested_sample_rate, udp_listen_port },
                    )
                },
                ClientEvent::ReaderFailed(t) => {
                    *self = finished;
                    ClientAction::Fail(t)
                },
                ClientEvent::ReaderClosed => {
                    *self = finished;
                    ClientAction::Fail(String::from_str("connection closed during handshake"))
                },
                _ => ClientAction::Ignore,
            },
            ClientPhase::AwaitingHandshakeResult => match e {
                ClientEvent::HandshakeReceived(HandshakeResult::Ready) => {
                    self.phase = ClientPhase::Streaming;
                    ClientAction::Connected
                },
                ClientEvent::HandshakeReceived(HandshakeResult::Error(err)) => {
                    *self = finished;
                    ClientAction::Fail(err.message())
                },
                ClientEvent::ReaderFailed(t) => {
                    *self = finished;
                    ClientAction::Fail(t)
                },
                ClientEvent::ReaderClosed => {
                    *self = finished;
                    ClientAction::Fail(String::from_str("connection closed during handshake"))
                },
                _ => ClientAction::Ignore,
            },
            ClientPhase::Streaming => match e {
                ClientEvent::PingDue { now_us } => {
                    let seq = self.ping_seq;
                    self.ping_seq = seq.wrapping_add(1);
                    ClientAction::Send(ReceiverMessage::Ping { seq, timestamp_us: now_us })
                },
                ClientEvent::HostMessageReceived { msg, now_us } => match msg {
                    HostMessage::Pong { timestamp_us, .. } => {
                        let rtt_us = now_us.saturating_sub(timestamp_us);
                        let one_way_us = ((rtt_us / 2) % 0x1_0000_0000u64) as u32;
                        ClientAction::LatencyMeasured(one_way_us)
                    },
                    HostMessage::StreamStats { packets_sent, packets_dropped, .. } => {
                        ClientAction::HostStats { packets_sent, packets_dropped }
                    },
                    HostMessage::Error(err) => {
                        *self = finished;
                        ClientAction::Fail(host_error_message(&err))
                    },
                },
                ClientEvent::ReaderFailed(t) => {
                    *self = finished;
                    ClientAction::Fail(t)
                },
                ClientEvent::ReaderClosed => {
                    *self = finished;
                    ClientAction::Finish
                },
                ClientEvent::DisconnectRequested => {
                    *self = finished;
                    ClientAction::SendAndFinish(ReceiverMessage::Disconnect)
                },
                _ => ClientAction::Ignore,
            },
        }
    }

    /// Takes one UDP datagram: while streaming, the samples of the packet it
    /// holds are to be played, and a datagram that is no packet is dropped;
    /// before the handshake is done, and after the session, it is ignored.
    pub fn on_datagram(&self, bytes: &[u8]) -> (a: ClientAction)
        ensures
            self.phase != ClientPhase::Streaming ==> a == ClientAction::Ignore,
            self.phase == ClientPhase::Streaming ==> match decode_result(bytes@) {
                Ok(p) => a matches ClientAction::Play(v) && v@ == p.samples,
                Err(e) => a == ClientAction::DiscardDatagram(e),
            },
    {
        if self.phase != ClientPhase::Streaming {
            return ClientAction::Ignore;
        }
        match AudioPacket::decode(bytes) {
            Ok(pkt) => ClientAction::Play(pkt.samples),
            Err(e) => ClientAction::DiscardDatagram(e),
        }
    }
}

} // verus!
