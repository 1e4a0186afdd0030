//! The byte flow through the send staging buffer, over whole histories.
//!
//! A history is any sequence of moves: the engine rewrites the spare room, the
//! transport rewrites the receive buffer, or an event of a send step or of a
//! bookkeeping cycle arrives. The laws here say what holds after every history
//! that the transport and the engine can produce.

use crate::pump::{PumpEvent, PumpState, SendAction, SendEvent};
use vstd::prelude::*;

verus! {

/// One thing that can happen to the adapter.
pub enum Move {
    /// The spare room was rewritten to hold these bytes.
    Fill(Seq<u8>),
    /// The receive buffer was rewritten to hold these bytes.
    Receive(Seq<u8>),
    /// An event of a send step arrived.
    Send(SendEvent),
    /// An event of a bookkeeping cycle arrived.
    Cycle(PumpEvent),
}

impl Move {
    /// Whether the move can occur in state `s`: a rewritten buffer keeps its
    /// length, an event is one that the state admits.
    pub open spec fn legal(self, s: PumpState) -> bool {
        match self {
            Move::Fill(bytes) => bytes.len() == s.spare().len(),
            Move::Receive(bytes) => bytes.len() == s.recv.len(),
            Move::Send(event) => s.admits_send(event),
            Move::Cycle(event) => s.admits(event),
        }
    }

    /// The state after the move.
    pub open spec fn after(self, s: PumpState) -> PumpState {
        match self {
            Move::Fill(bytes) => PumpState { buffer: s.buffer.subrange(0, s.end) + bytes, ..s },
            Move::Receive(bytes) => PumpState { recv: bytes, ..s },
            Move::Send(event) => s.send_step(event).0,
            Move::Cycle(event) => s.pump_step(event).0,
        }
    }

    /// The send event that the move brings, if any.
    pub open spec fn send_event(self) -> Option<SendEvent> {
        match self {
            Move::Send(event) => Some(event),
            Move::Cycle(PumpEvent::Send(event)) => Some(event),
            _ => None,
        }
    }

    /// The bytes that the move stages: what the engine reports as produced.
    pub open spec fn stages(self, s: PumpState) -> Seq<u8> {
        match self.send_event() {
            Some(SendEvent::Produced(Ok(n))) => s.buffer.subrange(s.end, s.end + n),
            _ => Seq::empty(),
        }
    }

    /// The bytes that the move hands to the transport: what the transport
    /// reports as written.
    pub open spec fn writes(self, s: PumpState) -> Seq<u8> {
        match self.send_event() {
            Some(SendEvent::Written(n)) => s.buffer.subrange(s.pos, s.pos + n),
            _ => Seq::empty(),
        }
    }
}

/// Whether every move of the history can occur where it stands.
pub open spec fn legal_history(s: PumpState, history: Seq<Move>) -> bool
    decreases history.len(),
{
    if history.len() == 0 {
        true
    } else {
        legal_history(s, history.drop_last()) && history.last().legal(
            state_after(s, history.drop_last()),
        )
    }
}

/// The state after the history.
pub open spec fn state_after(s: PumpState, history: Seq<Move>) -> PumpState
    decreases history.len(),
{
    if history.len() == 0 {
        s
    } else {
        history.last().after(state_after(s, history.drop_last()))
    }
}

/// All bytes that the engine staged during the history, in order.
pub open spec fn staged(s: PumpState, history: Seq<Move>) -> Seq<u8>
    decreases history.len(),
{
    if history.len() == 0 {
        Seq::empty()
    } else {
        staged(s, history.drop_last()) + history.last().stages(
            state_after(s, history.drop_last()),
        )
    }
}

/// All bytes that the transport took during the history, in order.
pub open spec fn written(s: PumpState, history: Seq<Move>) -> Seq<u8>
    decreases history.len(),
{
    if history.len() == 0 {
        Seq::empty()
    } else {
        written(s, history.drop_last()) + history.last().writes(
            state_after(s, history.drop_last()),
        )
    }
}

/// A send event keeps the cursors in order, and what was pending before it
/// together with what it stages is what it writes together with what is
/// pending after it.
proof fn lemma_send_event_conserves(s: PumpState, event: SendEvent)
    requires
        s.wf(),
        s.admits_send(event),
    ensures
        s.send_step(event).0.wf(),
        s.send_step(event).0.buffer == s.buffer,
        s.pending() + Move::Send(event).stages(s) == Move::Send(event).writes(s) + s.send_step(
            event,
        ).0.pending(),
{
}

/// A single legal move keeps the cursors in order and the capacity as it is,
/// and what was pending before it together with what it stages is what it
/// writes together with what is pending after it.
pub proof fn lemma_move_conserves(s: PumpState, m: Move)
    requires
        s.wf(),
        m.legal(s),
    ensures
        m.after(s).wf(),
        m.after(s).buffer.len() == s.buffer.len(),
        s.pending() + m.stages(s) == m.writes(s) + m.after(s).pending(),
{
    let t = m.after(s);
    match m {
        Move::Fill(bytes) => {
            assert(t.pending() =~= s.pending());
        },
        Move::Receive(bytes) => {
            assert(t.pending() =~= s.pending());
        },
        Move::Send(event) => {
            lemma_send_event_conserves(s, event);
        },
        Move::Cycle(PumpEvent::Send(event)) => {
            lemma_send_event_conserves(s, event);
        },
        Move::Cycle(PumpEvent::Recv(event)) => {
            lemma_send_event_conserves(s, SendEvent::Start);
            assert(t.pending() =~= s.pending());
        },
        Move::Cycle(_) => {
            assert(t.pending() =~= s.pending());
        },
    }
}

/// The staging buffer neither loses, repeats nor reorders a byte.
///
/// After every legal history the cursors are in order inside a buffer of the
/// same capacity, and the bytes that were pending at its start followed by all
/// that the engine staged are exactly the bytes that the transport took
/// followed by those still pending.
pub proof fn lemma_flow_conserved(s: PumpState, history: Seq<Move>)
    requires
        s.wf(),
        legal_history(s, history),
    ensures
        state_after(s, history).wf(),
        state_after(s, history).buffer.len() == s.buffer.len(),
        s.pending() + staged(s, history) == written(s, history) + state_after(
            s,
            history,
        ).pending(),
    decreases history.len(),
{
    if history.len() > 0 {
        let before = history.drop_last();
        let mid = state_after(s, before);
        let m = history.last();
        lemma_flow_conserved(s, before);
        lemma_move_conserves(mid, m);
        assert((written(s, before) + mid.pending()) + m.stages(mid) =~= written(s, before) + (
        mid.pending() + m.stages(mid)));
    }
}

/// The transport never receives more bytes than were staged: over every legal
/// history, what it took is no longer than what was pending at the start
/// together with what the engine staged since, and the cursors are in order
/// inside the buffer at the end.
pub proof fn lemma_never_writes_more_than_staged(s: PumpState, history: Seq<Move>)
    requires
        s.wf(),
        legal_history(s, history),
    ensures
        written(s, history).len() <= s.pending().len() + staged(s, history).len(),
        0 <= state_after(s, history).pos <= state_after(s, history).end <= state_after(
            s,
            history,
        ).buffer.len(),
{
    lemma_flow_conserved(s, history);
    assert((s.pending() + staged(s, history)).len() == (written(s, history) + state_after(
        s,
        history,
    ).pending()).len());
}

/// A flush in progress completes before the engine produces more: whenever a
/// send step asks the engine to produce, no flush is in progress, and if one
/// was, the staged range has drained and the cursors are back at the front.
pub proof fn lemma_flush_completes_before_produce(s: PumpState, event: SendEvent)
    requires
        s.wf(),
        s.admits_send(event),
        s.send_step(event).1 == SendAction::Produce,
    ensures
        !s.send_step(event).0.flush,
        s.flush ==> s.send_step(event).0.pos == 0 && s.send_step(event).0.end == 0
            && s.send_step(event).0.pending() == Seq::<u8>::empty(),
{
}

} // verus!
