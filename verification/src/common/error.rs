//! Errors of the packet codec and of the control-channel framing.
use vstd::prelude::*;

verus! {

/// An I/O error of the control channel's stream.
#[verifier::external_type_specification]
#[verifier::external_body]
pub struct ExIoError(std::io::Error);

/// A MessagePack decoding error.
#[verifier::external_type_specification]
#[verifier::external_body]
pub struct ExMsgpackDecodeError(rmp_serde::decode::Error);

/// A MessagePack encoding error.
#[verifier::external_type_specification]
#[verifier::external_body]
pub struct ExMsgpackEncodeError(rmp_serde::encode::Error);

/// Why a control-channel message could not be read or written.
#[derive(Debug)]
pub enum FramingError {
    /// The stream failed.
    Io(std::io::Error),
    /// The message's length is above `MAX_MESSAGE_BYTES`.
    MessageTooLarge(u32),
    /// The payload is not a MessagePack encoding of the expected message.
    Decode(rmp_serde::decode::Error),
    /// The message could not be encoded as MessagePack.
    Encode(rmp_serde::encode::Error),
}

/// Why an audio packet could not be encoded or decoded.
#[derive(Debug, Clone, Copy, PartialEq, Eq, Structural)]
pub enum PacketError {
    /// The datagram is shorter than a packet header.
    TooShort { got: usize },
    /// The datagram ends before the samples that its header announces.
    Truncated { expected: usize, got: usize },
    /// The packet holds more samples than one datagram may carry.
    TooManyFrames(usize),
    /// The output buffer cannot hold the encoded packet.
    BufferTooSmall { need: usize, got: usize },
}

} // verus!
