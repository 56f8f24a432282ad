//! Messages of the TCP control channel.
use vstd::prelude::*;

use crate::common::text::{append_decimal, decimal};

verus! {

/// Version of the control protocol; both ends must agree on it.
pub const PROTOCOL_VERSION: u16 = 1;

/// TCP port on which the host listens for the receiver.
pub const DEFAULT_PORT: u16 = 7271;

// ---------------------------------------------------------------------------
// Handshake
// ---------------------------------------------------------------------------

/// Sent by the host immediately after the receiver connects.
#[derive(Debug, Clone, PartialEq, Eq)]
pub struct ServerHello {
    pub version: u16,
    pub sample_rate: u32,
    pub channels: u8,
    pub device_name: String,
    /// UDP port on the host that the receiver should send return audio to.
    pub return_udp_port: u16,
}

/// Sent by the receiver in response to ServerHello.
#[derive(Debug, Clone, PartialEq, Eq)]
pub struct ClientHello {
    pub version: u16,
    /// Sample rate the receiver's output device runs at.
    pub requested_sample_rate: u32,
    /// UDP port the receiver listens on for incoming audio packets.
    pub udp_listen_port: u16,
}

/// The host's answer to a ClientHello.
#[derive(Debug, Clone, PartialEq, Eq)]
pub enum HandshakeResult {
    Ready,
    Error(SessionError),
}

// ---------------------------------------------------------------------------
// Session messages
// ---------------------------------------------------------------------------

/// Receiver to host (over TCP).
#[derive(Debug, Clone, PartialEq, Eq)]
pub enum ReceiverMessage {
    Ping { seq: u32, timestamp_us: u64 },
    Disconnect,
}

/// Host to receiver (over TCP).
#[derive(Debug, Clone, PartialEq, Eq)]
pub enum HostMessage {
    /// Echo of a Ping for RTT measurement.
    Pong { seq: u32, timestamp_us: u64 },
    StreamStats {
        packets_sent: u64,
        packets_dropped: u32,
        /// Capture level in dBFS x 100.
        level_dbfs_x100: i16,
    },
    Error(SessionError),
}

// ---------------------------------------------------------------------------
// Errors
// ---------------------------------------------------------------------------

/// Why a session was refused or ended by the other side.
#[derive(Debug, Clone, PartialEq, Eq)]
pub enum SessionError {
    VersionMismatch { got: u16, expected: u16 },
    DeviceUnavailable,
    SampleRateMismatch { got: u32, expected: u32 },
    Internal(String),
}

/// The text of a session error, as it is shown to the user.
pub open spec fn session_error_text(e: SessionError) -> Seq<char> {
    match e {
        SessionError::VersionMismatch { got, expected } => "protocol version mismatch: got "@
            + decimal(got as nat) + ", expected "@ + decimal(expected as nat),
        SessionError::DeviceUnavailable => "audio device unavailable"@,
        SessionError::SampleRateMismatch { got, expected } => "sample rate mismatch: device "@
            + decimal(got as nat) + " Hz, DAW "@ + decimal(expected as nat) + " Hz"@,
        SessionError::Internal(s) => "internal error: "@ + s@,
    }
}

impl SessionError {
    /// The text of the error, as it is shown to the user.
    pub fn message(&self) -> (r: String)
        ensures
            r@ == session_error_text(*self),
    {
        match self {
            SessionError::VersionMismatch { got, expected } => {
                let mut out = String::from_str("protocol version mismatch: got ");
                append_decimal(&mut out, *got as u64);
                out.append(", expected ");
                append_decimal(&mut out, *expected as u64);
                out
            },
            SessionError::DeviceUnavailable => String::from_str("audio device unavailable"),
            SessionError::SampleRateMismatch { got, expected } => {
                let mut out = String::from_str("sample rate mismatch: device ");
                append_decimal(&mut out, *got as u64);
                out.append(" Hz, DAW ");
                append_decimal(&mut out, *expected as u64);
                out.append(" Hz");
                out
            },
            SessionError::Internal(s) => {
                let mut out = String::from_str("internal error: ");
                out.append(s.as_str());
                out
            },
        }
    }
}

} // verus!
