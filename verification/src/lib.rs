//! The sans-I/O core of an asynchronous QUIC connection driver.
//!
//! The driver sits between a protocol engine, a non-blocking transport and the
//! channels of the application's handles. None of the three is touched here:
//! every type of this crate is a state machine that is told what happened and
//! answers with what to do next, so that each decision of the driver is a
//! function with a contract.

pub mod anchor;
pub mod delivery;
pub mod driver;
pub mod engine;
pub mod flow;
pub mod handshake;
pub mod pump;
pub mod stream;

pub use anchor::Anchor;
pub use driver::{Driver, DriverAction, DriverEvent, Readable, StreamEntry, StreamOp};
pub use engine::{is_peer_opened, Close, EngineError, CLOSE_REASON};
pub use handshake::{Connecting, Connection, HandshakeAction, HandshakeEvent, MidHandshake};
pub use pump::{
    Inner, Outcome, PumpAction, PumpEvent, RecvAction, RecvEvent, SendAction, SendEvent, TimerOp,
};
pub use stream::{Incoming, Message, QuicStream};
