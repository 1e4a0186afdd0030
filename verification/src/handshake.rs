//! The handshake: the conversation that drives the adapter until the engine is
//! established, and what it hands over when it is.

use crate::anchor::{Anchor, AnchorState};
use crate::driver::{Driver, DriverState};
use crate::pump::{Inner, Outcome, PumpState};
use crate::stream::{Incoming, IncomingState};
use vstd::prelude::*;

verus! {

/// The summary of a completed handshake. It never changes, and it carries no
/// way to move bytes: that is what streams are for.
#[derive(Debug, PartialEq, Eq)]
pub struct Connection {
    trace_id: String,
    alpn: Vec<u8>,
    is_resumed: bool,
}

/// A connection summary as the contracts see it.
pub struct ConnectionView {
    /// The identifier under which the engine traces the connection.
    pub trace_id: Seq<char>,
    /// The application protocol that was negotiated.
    pub alpn: Seq<u8>,
    /// Whether the session was resumed.
    pub is_resumed: bool,
}

impl View for Connection {
    type V = ConnectionView;

    closed spec fn view(&self) -> ConnectionView {
        ConnectionView {
            trace_id: self.trace_id@,
            alpn: self.alpn@,
            is_resumed: self.is_resumed,
        }
    }
}

impl DeepView for Connection {
    type V = ConnectionView;

    open spec fn deep_view(&self) -> ConnectionView {
        self@
    }
}

impl Connection {
    /// The summary of what the engine reports once, when it is established.
    pub fn new(trace_id: String, alpn: Vec<u8>, is_resumed: bool) -> (connection: Connection)
        ensures
            connection@ == (ConnectionView { trace_id: trace_id@, alpn: alpn@, is_resumed }),
    {
        Connection { trace_id, alpn, is_resumed }
    }

    /// The identifier under which the engine traces the connection.
    pub fn trace_id(&self) -> (id: &str)
        ensures
            id@ == self@.trace_id,
    {
        self.trace_id.as_str()
    }

    /// The application protocol that was negotiated.
    pub fn alpn(&self) -> (alpn: &[u8])
        ensures
            alpn@ == self@.alpn,
    {
        self.alpn.as_slice()
    }

    /// Whether the session was resumed.
    pub fn is_resumed(&self) -> (resumed: bool)
        ensures
            resumed == self@.is_resumed,
    {
        self.is_resumed
    }
}

/// What happened since the last action of a handshake poll.
#[derive(Debug, PartialEq, Eq)]
pub enum HandshakeEvent {
    /// The poll begins.
    Start,
    /// The send step on the adapter ended this way.
    Sent(Outcome),
    /// What the engine reports of itself: the summary if it is established, and
    /// whether the connection is closed.
    Status { established: Option<Connection>, closed: bool },
    /// The bookkeeping cycle on the adapter ended this way.
    Pumped(Outcome),
}

/// `HandshakeEvent` as the contracts see it.
pub enum HandshakeEventView {
    Start,
    Sent(Outcome),
    Status { established: Option<ConnectionView>, closed: bool },
    Pumped(Outcome),
}

impl View for HandshakeEvent {
    type V = HandshakeEventView;

    open spec fn view(&self) -> HandshakeEventView {
        match self {
            HandshakeEvent::Start => HandshakeEventView::Start,
            HandshakeEvent::Sent(outcome) => HandshakeEventView::Sent(*outcome),
            HandshakeEvent::Status { established, closed } => HandshakeEventView::Status {
                established: established.deep_view(),
                closed: *closed,
            },
            HandshakeEvent::Pumped(outcome) => HandshakeEventView::Pumped(*outcome),
        }
    }
}

/// What a handshake poll asks for next, or how it ends.
#[derive(Debug, PartialEq, Eq)]
pub enum HandshakeAction {
    /// Run a send step on the adapter.
    Send,
    /// Report what the engine says of itself.
    AskStatus,
    /// Run a bookkeeping cycle on the adapter.
    Pump,
    /// The poll is over and the handshake goes on.
    NotReady,
    /// The handshake failed because the transport did.
    TransportFailed,
    /// The handshake failed because the connection closed before the engine was
    /// established.
    UnexpectedEof,
    /// The handshake is complete. The driver owns the adapter, `anchor` counts
    /// the two handles beside it.
    Established { driver: Driver, connection: Connection, incoming: Incoming, anchor: Anchor },
}

/// `HandshakeAction` as the contracts see it.
pub enum HandshakeActionView {
    Send,
    AskStatus,
    Pump,
    NotReady,
    TransportFailed,
    UnexpectedEof,
    Established {
        driver: DriverState,
        connection: ConnectionView,
        incoming: IncomingState,
        anchor: AnchorState,
    },
}

impl View for HandshakeAction {
    type V = HandshakeActionView;

    open spec fn view(&self) -> HandshakeActionView {
        match self {
            HandshakeAction::Send => HandshakeActionView::Send,
            HandshakeAction::AskStatus => HandshakeActionView::AskStatus,
            HandshakeAction::Pump => HandshakeActionView::Pump,
            HandshakeAction::NotReady => HandshakeActionView::NotReady,
            HandshakeAction::TransportFailed => HandshakeActionView::TransportFailed,
            HandshakeAction::UnexpectedEof => HandshakeActionView::UnexpectedEof,
            HandshakeAction::Established {
                driver,
                connection,
                incoming,
                anchor,
            } => HandshakeActionView::Established {
                driver: driver@,
                connection: connection@,
                incoming: incoming@,
                anchor: anchor@,
            },
        }
    }
}

/// The two states of a handshake.
#[derive(Debug, PartialEq, Eq)]
pub enum MidHandshake {
    /// The handshake goes on, on this adapter.
    Handshaking(Inner),
    /// The handshake is complete, and the adapter has gone to the driver.
    End,
}

/// A handshake as the contracts see it.
pub enum HandshakeState {
    /// The handshake goes on, on the adapter `pump`. `parked` says that a
    /// bookkeeping cycle of the poll in progress ended not ready.
    Handshaking { pump: PumpState, parked: bool },
    End,
}

/// What a fresh pair of handles leaves behind: a driver on `pump` that tracks
/// no stream and has seen no close signal, an open sequence of accepted
/// streams, and an anchor that the two handles hold.
pub open spec fn established(pump: PumpState, connection: ConnectionView) -> HandshakeActionView {
    HandshakeActionView::Established {
        driver: DriverState { pump, closing: false, busy: false, streams: Map::empty() },
        connection,
        incoming: IncomingState { ended: false },
        anchor: AnchorState { holders: 2, fired: false },
    }
}

/// One move of a handshake poll on the adapter `pump`; `parked` says that a
/// cycle of this poll ended not ready.
///
/// A poll begins with a send step, so that the engine can emit its first
/// flight before anything is received; a step that is not ready ends the poll.
/// Then the engine's status decides, and it is asked after the send step and
/// again after every bookkeeping cycle, ready or not: established ends the
/// handshake and hands everything over; closed without being established is an
/// unexpected end; neither of the two runs a cycle, or ends the poll not ready
/// if the cycle before the question ended so. A step or cycle that failed fails
/// the handshake.
pub open spec fn handshake_step(pump: PumpState, parked: bool, event: HandshakeEventView) -> (
    HandshakeState,
    HandshakeActionView,
) {
    let going = HandshakeState::Handshaking { pump, parked: false };
    match event {
        HandshakeEventView::Start => (going, HandshakeActionView::Send),
        HandshakeEventView::Sent(Outcome::Ready) => (going, HandshakeActionView::AskStatus),
        HandshakeEventView::Sent(Outcome::NotReady) => (going, HandshakeActionView::NotReady),
        HandshakeEventView::Sent(Outcome::Failed) => (
            going,
            HandshakeActionView::TransportFailed,
        ),
        HandshakeEventView::Status { established: Some(connection), closed } => (
            HandshakeState::End,
            established(pump, connection),
        ),
        HandshakeEventView::Status { established: None, closed } => (
            going,
            if closed {
                HandshakeActionView::UnexpectedEof
            } else if parked {
                HandshakeActionView::NotReady
            } else {
                HandshakeActionView::Pump
            },
        ),
        HandshakeEventView::Pumped(Outcome::Ready) => (going, HandshakeActionView::AskStatus),
        HandshakeEventView::Pumped(Outcome::NotReady) => (
            HandshakeState::Handshaking { pump, parked: true },
            HandshakeActionView::AskStatus,
        ),
        HandshakeEventView::Pumped(Outcome::Failed) => (
            going,
            HandshakeActionView::TransportFailed,
        ),
    }
}

/// The handshake resolves to established exactly when the engine reports
/// itself established, and fails with an unexpected end exactly when the engine
/// reports the connection closed and itself not established.
pub proof fn lemma_established_exactly_when_engine_is(
    pump: PumpState,
    parked: bool,
    event: HandshakeEventView,
)
    ensures
        handshake_step(pump, parked, event).1 is Established <==> (event
            matches HandshakeEventView::Status { established: Some(_), .. }),
        handshake_step(pump, parked, event).1 is UnexpectedEof <==> (event
            matches HandshakeEventView::Status { established: None, closed: true }),
        handshake_step(pump, parked, event).0 is End <==> handshake_step(pump, parked, event).1
            is Established,
{
}

/// How a poll goes on after a bookkeeping cycle that ended with `cycle`, when
/// the engine then reports `status` of itself on the adapter as the cycle left
/// it: the handshake and the answer after the report.
pub open spec fn after_cycle(
    pump: PumpState,
    parked: bool,
    cycle: Outcome,
    status: HandshakeEventView,
) -> (HandshakeState, HandshakeActionView) {
    match handshake_step(pump, parked, HandshakeEventView::Pumped(cycle)).0 {
        HandshakeState::Handshaking { pump, parked } => handshake_step(pump, parked, status),
        HandshakeState::End => (HandshakeState::End, HandshakeActionView::NotReady),
    }
}

/// The engine's status is asked again after every bookkeeping cycle that did
/// not fail, in the same poll. If the cycle made the engine established, that
/// poll resolves with what the engine reports; if it closed the connection
/// first, that poll fails with an unexpected end; and if it did neither, the
/// poll ends not ready after a cycle that was not ready, and runs another
/// cycle after one that was.
pub proof fn lemma_status_is_asked_after_every_cycle(
    pump: PumpState,
    parked: bool,
    cycle: Outcome,
    connection: ConnectionView,
    closed: bool,
)
    requires
        cycle != Outcome::Failed,
    ensures
        handshake_step(pump, parked, HandshakeEventView::Pumped(cycle)).1
            == HandshakeActionView::AskStatus,
        after_cycle(
            pump,
            parked,
            cycle,
            HandshakeEventView::Status { established: Some(connection), closed },
        ) == (HandshakeState::End, established(pump, connection)),
        after_cycle(
            pump,
            parked,
            cycle,
            HandshakeEventView::Status { established: None, closed: true },
        ).1 == HandshakeActionView::UnexpectedEof,
        after_cycle(
            pump,
            parked,
            cycle,
            HandshakeEventView::Status { established: None, closed: false },
        ).1 == (if cycle == Outcome::NotReady {
            HandshakeActionView::NotReady
        } else {
            HandshakeActionView::Pump
        }),
{
}

/// The future of a connection that is still in its handshake.
#[derive(Debug, PartialEq, Eq)]
pub struct Connecting {
    inner: MidHandshake,
    parked: bool,
}

impl View for Connecting {
    type V = HandshakeState;

    closed spec fn view(&self) -> HandshakeState {
        match self.inner {
            MidHandshake::Handshaking(inner) => HandshakeState::Handshaking {
                pump: inner@,
                parked: self.parked,
            },
            MidHandshake::End => HandshakeState::End,
        }
    }
}

impl Connecting {
    /// A handshake that goes on, on the adapter `inner`.
    pub fn new(inner: Inner) -> (connecting: Connecting)
        ensures
            connecting@ == (HandshakeState::Handshaking { pump: inner@, parked: false }),
    {
        Connecting { inner: MidHandshake::Handshaking(inner), parked: false }
    }

    /// Whether the handshake is complete. A complete handshake must not be
    /// polled again.
    pub fn is_ended(&self) -> (ended: bool)
        ensures
            ended == (self@ is End),
    {
        match &self.inner {
            MidHandshake::Handshaking(_) => false,
            MidHandshake::End => true,
        }
    }

    /// The adapter, for the pump steps that `Send` and `Pump` ask for; none once
    /// the handshake is complete.
    pub fn inner_mut(&mut self) -> (inner: Option<&mut Inner>)
        ensures
            old(self)@ is End ==> inner is None && final(self)@ is End,
            old(self)@ matches HandshakeState::Handshaking { pump, parked } ==> inner is Some
                && inner->0@ == pump && final(self)@ == (HandshakeState::Handshaking {
                pump: final(inner->0)@,
                parked,
            }),
    {
        match &mut self.inner {
            MidHandshake::Handshaking(inner) => Some(inner),
            MidHandshake::End => None,
        }
    }

    /// One move of a handshake poll.
    ///
    /// The poll is a conversation: the caller opens it with `Start`, performs
    /// the action that comes back and reports how it went, until the answer is
    /// one of the four ends. When the engine reports itself established, the
    /// adapter moves into a new driver and the handshake is complete; the
    /// engine is asked after the send step and after every cycle, so that the
    /// poll whose cycle established the engine is the poll that resolves.
    pub fn poll(&mut self, event: HandshakeEvent) -> (action: HandshakeAction)
        requires
            old(self)@ is Handshaking,
        ensures
            final(self)@ == handshake_step(old(self)@->pump, old(self)@->parked, event@).0,
            action@ == handshake_step(old(self)@->pump, old(self)@->parked, event@).1,
    {
        let parked: bool = self.parked;
        self.parked = false;
        match event {
            HandshakeEvent::Start => HandshakeAction::Send,
            HandshakeEvent::Sent(Outcome::Ready) => HandshakeAction::AskStatus,
            HandshakeEvent::Sent(Outcome::NotReady) => HandshakeAction::NotReady,
            HandshakeEvent::Sent(Outcome::Failed) => HandshakeAction::TransportFailed,
            HandshakeEvent::Status { established: Some(connection), closed: _ } => {
                let mut state = MidHandshake::End;
                std::mem::swap(&mut self.inner, &mut state);
                match state {
                    MidHandshake::Handshaking(inner) => {
                        let mut anchor = Anchor::new();
                        anchor.hold();
                        anchor.hold();
                        HandshakeAction::Established {
                            driver: Driver::new(inner),
                            connection,
                            incoming: Incoming::new(),
                            anchor,
                        }
                    },
                    MidHandshake::End => vstd::pervasive::unreached(),
                }
            },
            HandshakeEvent::Status { established: None, closed } => {
                if closed {
                    HandshakeAction::UnexpectedEof
                } else if parked {
                    HandshakeAction::NotReady
                } else {
                    HandshakeAction::Pump
                }
            },
            HandshakeEvent::Pumped(Outcome::Ready) => HandshakeAction::AskStatus,
            HandshakeEvent::Pumped(Outcome::NotReady) => {
                self.parked = true;
                HandshakeAction::AskStatus
            },
            HandshakeEvent::Pumped(Outcome::Failed) => HandshakeAction::TransportFailed,
        }
    }
}

} // verus!
