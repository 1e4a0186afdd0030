//! What the driver reads of the protocol engine's answers.
//!
//! The engine itself is not part of this crate. The driver sees it through the
//! values it hands back: byte counts, these errors, and stream identifiers.

use vstd::prelude::*;

verus! {

/// How a call into the protocol engine ended when it did not end with a count.
#[derive(Clone, Copy, Debug, PartialEq, Eq, Structural)]
pub enum EngineError {
    /// There is no more work to do.
    Done,
    /// The buffer handed to the engine is too short.
    BufferTooShort,
    /// The version of a packet is unknown.
    UnknownVersion,
    /// A packet holds a frame that cannot be parsed.
    InvalidFrame,
    /// A packet cannot be parsed.
    InvalidPacket,
    /// The connection is in a state that forbids the operation.
    InvalidState,
    /// The stream is in a state that forbids the operation.
    InvalidStreamState,
    /// The peer's transport parameters cannot be parsed.
    InvalidTransportParam,
    /// A cryptographic operation failed.
    CryptoFail,
    /// The TLS handshake failed.
    TlsFail,
    /// The peer went beyond the local flow control limits.
    FlowControl,
    /// The peer went beyond the local stream limits.
    StreamLimit,
    /// Received data goes beyond the final size of its stream.
    FinalSize,
}

impl EngineError {
    /// The transport error code that a connection close carries for this error.
    pub open spec fn wire_code(self) -> u64 {
        match self {
            EngineError::Done => 0x0,
            EngineError::InvalidFrame => 0x7,
            EngineError::InvalidStreamState => 0x5,
            EngineError::InvalidTransportParam => 0x8,
            EngineError::CryptoFail => 0x100,
            EngineError::TlsFail => 0x100,
            EngineError::FlowControl => 0x3,
            EngineError::StreamLimit => 0x4,
            EngineError::FinalSize => 0x6,
            _ => 0xa,
        }
    }

    /// The close that the driver asks of the engine when the engine fails with
    /// this error: a close of the transport, not of the application, with the
    /// error's code and the fixed reason.
    pub open spec fn close(self) -> Close {
        Close { app: false, code: self.wire_code(), reason: CLOSE_REASON }
    }

    /// Computes the transport error code of the error.
    pub fn to_wire(self) -> (code: u64)
        ensures
            code == self.wire_code(),
    {
        match self {
            EngineError::Done => 0x0,
            EngineError::InvalidFrame => 0x7,
            EngineError::InvalidStreamState => 0x5,
            EngineError::InvalidTransportParam => 0x8,
            EngineError::CryptoFail => 0x100,
            EngineError::TlsFail => 0x100,
            EngineError::FlowControl => 0x3,
            EngineError::StreamLimit => 0x4,
            EngineError::FinalSize => 0x6,
            _ => 0xa,
        }
    }

    /// Builds the close that the driver asks of the engine for this error.
    pub fn to_close(self) -> (close: Close)
        ensures
            close == self.close(),
    {
        Close { app: false, code: self.to_wire(), reason: CLOSE_REASON }
    }
}

/// The reason that accompanies every close that the driver asks of the engine.
pub const CLOSE_REASON: [u8; 4] = [102, 97, 105, 108];

/// What a close hands to the engine.
#[derive(Clone, Copy, Debug, PartialEq, Eq)]
pub struct Close {
    /// Whether the application closes the connection, rather than the transport.
    pub app: bool,
    /// The error code that goes on the wire.
    pub code: u64,
    /// The reason phrase.
    pub reason: [u8; 4],
}

/// Whether the peer of a connecting endpoint opened the stream `id`: the lowest
/// bit of a stream identifier is set when the accepting side opened it.
pub open spec fn peer_opened(id: u64) -> bool {
    id % 2 == 1
}

/// Tells whether the peer opened the stream `id`.
pub fn is_peer_opened(id: u64) -> (r: bool)
    ensures
        r == peer_opened(id),
{
    id % 2 == 1
}

} // verus!
