//! The engine adapter: the send staging buffer, the receive buffer, and the
//! three pump steps that move bytes and timers between engine and transport.
//!
//! A pump step is a conversation. The caller opens it with `Start`, performs the
//! action that comes back, reports what the transport or the engine answered,
//! and goes on until the step answers `Return`. The adapter never touches the
//! transport or the engine; it decides.

use crate::engine::{Close, EngineError};
use std::time::Duration;
use vstd::prelude::*;

verus! {

/// How a pump step, a handshake poll or a driver iteration ends.
#[derive(Clone, Copy, Debug, PartialEq, Eq, Structural)]
pub enum Outcome {
    /// The work is complete.
    Ready,
    /// More work remains; the caller comes back when the transport, the timer
    /// or a channel wakes it.
    NotReady,
    /// The transport failed, or the channel of the close signal did. This is
    /// fatal.
    Failed,
}

/// What happened since the last action of a send step.
#[derive(Clone, Copy, Debug, PartialEq, Eq)]
pub enum SendEvent {
    /// The step begins.
    Start,
    /// The transport took this many of the pending bytes.
    Written(usize),
    /// The transport would block.
    Blocked,
    /// The transport failed.
    Broken,
    /// The engine's answer to `Produce`: how many bytes it wrote into the spare
    /// room, or why it wrote none.
    Produced(Result<usize, EngineError>),
    /// The engine was told to close the connection.
    Closed,
}

/// What a send step asks for next.
#[derive(Clone, Copy, Debug, PartialEq, Eq)]
pub enum SendAction {
    /// Offer the pending bytes to the transport.
    Write,
    /// Let the engine write a packet into the spare room.
    Produce,
    /// Tell the engine to close the connection in this way.
    Close(Close),
    /// The step is over.
    Return(Outcome),
}

/// What happened since the last action of a receive step.
#[derive(Clone, Copy, Debug, PartialEq, Eq)]
pub enum RecvEvent {
    /// The step begins.
    Start,
    /// The transport put this many bytes at the front of the receive buffer.
    Read(usize),
    /// The transport would block.
    Blocked,
    /// The transport failed.
    Broken,
    /// The engine's answer to `Feed`.
    Fed(Result<usize, EngineError>),
    /// The engine was told to close the connection.
    Closed,
}

/// What a receive step asks for next.
#[derive(Clone, Copy, Debug, PartialEq, Eq)]
pub enum RecvAction {
    /// Let the transport read into the receive buffer.
    Read,
    /// Hand this many bytes from the front of the receive buffer to the engine.
    Feed(usize),
    /// Tell the engine to close the connection in this way.
    Close(Close),
    /// The step is over.
    Return(Outcome),
}

/// What to do with the retransmission timer.
#[derive(Clone, Copy, Debug, PartialEq, Eq)]
pub enum TimerOp {
    /// There is no timer yet: create one that fires after this long.
    Arm(Duration),
    /// Move the existing timer so that it fires after this long.
    Reset(Duration),
    /// Drop the timer, if there is one.
    Cancel,
}

/// What happened since the last action of a bookkeeping cycle.
#[derive(Clone, Copy, Debug, PartialEq, Eq)]
pub enum PumpEvent {
    /// The cycle begins.
    Start,
    /// The timer was polled; `true` when it has fired.
    Timer(bool),
    /// The engine was told that its timeout expired.
    Notified,
    /// The timeout that the engine wants next, if any.
    Timeout(Option<Duration>),
    /// The timer was armed, moved or dropped as asked.
    TimerSet,
    /// An event of the receive step that the cycle is running.
    Recv(RecvEvent),
    /// An event of the send step that the cycle is running.
    Send(SendEvent),
    /// Whether the engine reports the connection closed.
    Closed(bool),
}

/// What a bookkeeping cycle asks for next.
#[derive(Clone, Copy, Debug, PartialEq, Eq)]
pub enum PumpAction {
    /// Poll the timer.
    PollTimer,
    /// Tell the engine that its timeout expired.
    NotifyTimeout,
    /// Ask the engine for the timeout it wants next.
    AskTimeout,
    /// Arm, move or drop the timer.
    SetTimer(TimerOp),
    /// An action of the receive step that the cycle is running.
    Recv(RecvAction),
    /// An action of the send step that the cycle is running.
    Send(SendAction),
    /// Ask the engine whether the connection is closed.
    AskClosed,
    /// The cycle is over.
    Return(Outcome),
}

/// The adapter as the contracts see it.
pub struct PumpState {
    /// The send staging buffer; its length is the capacity.
    pub buffer: Seq<u8>,
    /// How much of the staged range has gone to the transport.
    pub pos: int,
    /// Where the staged range ends and the spare room begins.
    pub end: int,
    /// Whether the staged range must drain before the engine produces more.
    pub flush: bool,
    /// The receive buffer.
    pub recv: Seq<u8>,
    /// Whether a retransmission timer exists.
    pub timer: bool,
    /// Whether the last receive step of a cycle ended before the transport
    /// blocked, so that the transport may hold bytes that nobody will announce.
    pub unread: bool,
}

impl PumpState {
    /// The cursors lie inside the staging buffer, in order.
    pub open spec fn wf(self) -> bool {
        0 <= self.pos <= self.end <= self.buffer.len()
    }

    /// The staged bytes that the transport has not taken yet.
    pub open spec fn pending(self) -> Seq<u8> {
        self.buffer.subrange(self.pos, self.end)
    }

    /// The room behind the staged range, where the engine writes.
    pub open spec fn spare(self) -> Seq<u8> {
        self.buffer.subrange(self.end, self.buffer.len() as int)
    }

    /// Whether a send event can occur in this state: the transport takes no more
    /// than it was offered, the engine writes no more than fits.
    pub open spec fn admits_send(self, event: SendEvent) -> bool {
        match event {
            SendEvent::Written(n) => n <= self.end - self.pos,
            SendEvent::Produced(Ok(n)) => n <= self.buffer.len() - self.end,
            _ => true,
        }
    }

    /// Whether a receive event can occur in this state: the transport reads no
    /// more than the receive buffer holds.
    pub open spec fn admits_recv(self, event: RecvEvent) -> bool {
        match event {
            RecvEvent::Read(n) => n <= self.recv.len(),
            _ => true,
        }
    }

    /// Whether an event of the bookkeeping cycle can occur in this state.
    pub open spec fn admits(self, event: PumpEvent) -> bool {
        match event {
            PumpEvent::Recv(e) => self.admits_recv(e),
            PumpEvent::Send(e) => self.admits_send(e),
            _ => true,
        }
    }

    /// The head of a send turn. While a flush is in progress the staged range
    /// drains first; once it is empty the cursors go back to the front and the
    /// flush is over. Then the engine may produce.
    pub open spec fn send_turn(self) -> (PumpState, SendAction) {
        if self.flush && self.pos != self.end {
            (self, SendAction::Write)
        } else if self.flush {
            (PumpState { pos: 0, end: 0, flush: false, ..self }, SendAction::Produce)
        } else {
            (self, SendAction::Produce)
        }
    }

    /// One move of the send step.
    pub open spec fn send_step(self, event: SendEvent) -> (PumpState, SendAction) {
        match event {
            SendEvent::Start => self.send_turn(),
            SendEvent::Written(n) => (PumpState { pos: self.pos + n, ..self }).send_turn(),
            SendEvent::Blocked => (self, SendAction::Return(Outcome::NotReady)),
            SendEvent::Broken => (self, SendAction::Return(Outcome::Failed)),
            SendEvent::Produced(Ok(n)) => (
                PumpState {
                    end: self.end + n,
                    flush: self.end + n == self.buffer.len(),
                    ..self
                },
                SendAction::Write,
            ),
            SendEvent::Produced(Err(EngineError::Done)) => (
                self,
                SendAction::Return(Outcome::Ready),
            ),
            SendEvent::Produced(Err(EngineError::BufferTooShort)) => (PumpState {
                flush: true,
                ..self
            }).send_turn(),
            SendEvent::Produced(Err(err)) => (self, SendAction::Close(err.close())),
            SendEvent::Closed => (self, SendAction::Return(Outcome::NotReady)),
        }
    }

    /// One move of the receive step. The step leaves the adapter as it was.
    pub open spec fn recv_step(self, event: RecvEvent) -> RecvAction {
        match event {
            RecvEvent::Start => RecvAction::Read,
            RecvEvent::Read(n) => RecvAction::Feed(n),
            RecvEvent::Blocked => RecvAction::Return(Outcome::NotReady),
            RecvEvent::Broken => RecvAction::Return(Outcome::Failed),
            RecvEvent::Fed(Ok(_)) => RecvAction::Read,
            RecvEvent::Fed(Err(EngineError::Done)) => RecvAction::Return(Outcome::Ready),
            RecvEvent::Fed(Err(err)) => RecvAction::Close(err.close()),
            RecvEvent::Closed => RecvAction::Return(Outcome::NotReady),
        }
    }

    /// One move of the bookkeeping cycle: the timer first, then a receive step,
    /// then a send step, then the question whether the connection is closed. A
    /// step that ends without failure hands over to the next stage whether it
    /// was ready or not; a failed one ends the cycle. The end of the receive
    /// step is remembered: it leaves bytes unread unless the transport blocked.
    pub open spec fn pump_step(self, event: PumpEvent) -> (PumpState, PumpAction) {
        match event {
            PumpEvent::Start => (
                self,
                if self.timer {
                    PumpAction::PollTimer
                } else {
                    PumpAction::AskTimeout
                },
            ),
            PumpEvent::Timer(fired) => (
                self,
                if fired {
                    PumpAction::NotifyTimeout
                } else {
                    PumpAction::AskTimeout
                },
            ),
            PumpEvent::Notified => (self, PumpAction::AskTimeout),
            PumpEvent::Timeout(Some(after)) => (
                PumpState { timer: true, ..self },
                PumpAction::SetTimer(
                    if self.timer {
                        TimerOp::Reset(after)
                    } else {
                        TimerOp::Arm(after)
                    },
                ),
            ),
            PumpEvent::Timeout(None) => (
                PumpState { timer: false, ..self },
                PumpAction::SetTimer(TimerOp::Cancel),
            ),
            PumpEvent::TimerSet => (self, PumpAction::Recv(self.recv_step(RecvEvent::Start))),
            PumpEvent::Recv(e) => match self.recv_step(e) {
                RecvAction::Return(Outcome::Failed) => (self, PumpAction::Return(Outcome::Failed)),
                RecvAction::Return(_) => (
                    PumpState {
                        unread: e != RecvEvent::Blocked,
                        ..self.send_step(SendEvent::Start).0
                    },
                    PumpAction::Send(self.send_step(SendEvent::Start).1),
                ),
                action => (self, PumpAction::Recv(action)),
            },
            PumpEvent::Send(e) => match self.send_step(e).1 {
                SendAction::Return(Outcome::Failed) => (
                    self.send_step(e).0,
                    PumpAction::Return(Outcome::Failed),
                ),
                SendAction::Return(_) => (self.send_step(e).0, PumpAction::AskClosed),
                action => (self.send_step(e).0, PumpAction::Send(action)),
            },
            PumpEvent::Closed(closed) => (
                self,
                PumpAction::Return(
                    if closed {
                        Outcome::Ready
                    } else {
                        Outcome::NotReady
                    },
                ),
            ),
        }
    }
}

/// The engine adapter: a send staging buffer of fixed capacity with its three
/// cursors, a receive buffer that every cycle reuses, and the knowledge
/// whether a retransmission timer exists.
#[derive(Debug, PartialEq, Eq)]
pub struct Inner {
    send_buf: Vec<u8>,
    send_pos: usize,
    send_end: usize,
    send_flush: bool,
    recv_buf: Vec<u8>,
    timer: bool,
    unread: bool,
}

impl View for Inner {
    type V = PumpState;

    closed spec fn view(&self) -> PumpState {
        PumpState {
            buffer: self.send_buf@,
            pos: self.send_pos as int,
            end: self.send_end as int,
            flush: self.send_flush,
            recv: self.recv_buf@,
            timer: self.timer,
            unread: self.unread,
        }
    }
}

impl Inner {
    /// An adapter with nothing staged, no flush in progress and no timer, whose
    /// buffers have the given lengths.
    pub fn new(send_capacity: usize, recv_capacity: usize) -> (inner: Inner)
        ensures
            inner@.wf(),
            inner@.buffer.len() == send_capacity,
            inner@.recv.len() == recv_capacity,
            inner@.pos == 0,
            inner@.end == 0,
            !inner@.flush,
            !inner@.timer,
            !inner@.unread,
    {
        Inner {
            send_buf: vec![0u8; send_capacity],
            send_pos: 0,
            send_end: 0,
            send_flush: false,
            recv_buf: vec![0u8; recv_capacity],
            timer: false,
            unread: false,
        }
    }

    /// Whether the cursors lie inside the staging buffer, in order. Every
    /// function of the adapter keeps it so. The test is for a caller that has
    /// lent out the spare room and cannot show what came back.
    pub fn is_well_formed(&self) -> (ok: bool)
        ensures
            ok == self@.wf(),
    {
        self.send_pos <= self.send_end && self.send_end <= self.send_buf.len()
    }

    /// Whether the last receive step of a cycle ended before the transport
    /// blocked.
    pub fn has_unread(&self) -> (unread: bool)
        ensures
            unread == self@.unread,
    {
        self.unread
    }

    /// Whether a send event can occur now: a caller that is not sure of its
    /// transport or its engine asks before it reports the event.
    pub fn admits_send(&self, event: &SendEvent) -> (ok: bool)
        ensures
            ok == self@.admits_send(*event),
    {
        match event {
            SendEvent::Written(n) => self.send_pos <= self.send_end && *n <= self.send_end
                - self.send_pos,
            SendEvent::Produced(Ok(n)) => self.send_end <= self.send_buf.len() && *n
                <= self.send_buf.len() - self.send_end,
            _ => true,
        }
    }

    /// Whether a receive event can occur now.
    pub fn admits_recv(&self, event: &RecvEvent) -> (ok: bool)
        ensures
            ok == self@.admits_recv(*event),
    {
        match event {
            RecvEvent::Read(n) => *n <= self.recv_buf.len(),
            _ => true,
        }
    }

    /// Whether an event of the bookkeeping cycle can occur now.
    pub fn admits(&self, event: &PumpEvent) -> (ok: bool)
        ensures
            ok == self@.admits(*event),
    {
        match event {
            PumpEvent::Recv(e) => self.admits_recv(e),
            PumpEvent::Send(e) => self.admits_send(e),
            _ => true,
        }
    }

    /// The staged bytes that the transport has not taken yet: what `Write`
    /// offers to the transport.
    pub fn pending(&self) -> (out: &[u8])
        requires
            self@.wf(),
        ensures
            out@ == self@.pending(),
    {
        vstd::slice::slice_subrange(self.send_buf.as_slice(), self.send_pos, self.send_end)
    }

    /// The spare room behind the staged range: where `Produce` lets the engine
    /// write. Nothing in front of it can change through the borrow.
    pub fn spare(&mut self) -> (out: &mut [u8])
        requires
            old(self)@.wf(),
        ensures
            out@ == old(self)@.spare(),
            final(self)@ == (PumpState {
                buffer: old(self)@.buffer.subrange(0, old(self)@.end) + final(out)@,
                ..old(self)@
            }),
    {
        let end: usize = self.send_end;
        let (_, tail) = self.send_buf.as_mut_slice().split_at_mut(end);
        tail
    }

    /// The whole receive buffer: where `Read` lets the transport put bytes.
    pub fn recv_room(&mut self) -> (out: &mut [u8])
        ensures
            out@ == old(self)@.recv,
            final(self)@ == (PumpState { recv: final(out)@, ..old(self)@ }),
    {
        self.recv_buf.as_mut_slice()
    }

    /// The first `n` bytes of the receive buffer: what `Feed(n)` hands to the
    /// engine, which may rewrite them in place.
    pub fn received(&mut self, n: usize) -> (out: &mut [u8])
        requires
            n <= old(self)@.recv.len(),
        ensures
            out@ == old(self)@.recv.subrange(0, n as int),
            final(self)@ == (PumpState {
                recv: final(out)@ + old(self)@.recv.subrange(n as int, old(self)@.recv.len() as int),
                ..old(self)@
            }),
    {
        let (head, _) = self.recv_buf.as_mut_slice().split_at_mut(n);
        head
    }

    /// The head of a send turn.
    fn send_turn(&mut self) -> (action: SendAction)
        requires
            old(self)@.wf(),
        ensures
            final(self)@ == old(self)@.send_turn().0,
            action == old(self)@.send_turn().1,
            final(self)@.wf(),
    {
        if self.send_flush {
            if self.send_pos != self.send_end {
                return SendAction::Write;
            }
            self.send_pos = 0;
            self.send_end = 0;
            self.send_flush = false;
        }
        SendAction::Produce
    }

    /// One move of the send step, which produces outgoing packets and flushes
    /// them to the transport.
    ///
    /// A turn begins by draining the staged range if a flush is in progress.
    /// Then the engine is asked to write behind the staged range. What it wrote
    /// is staged, a flush is forced when the buffer is full to the last byte,
    /// and the staged range is offered to the transport at once. When the
    /// engine has nothing to send the step is ready. When it wants more room a
    /// flush is forced and the turn begins again. Any other engine error makes
    /// the step ask for a close with the error's code, after which it is not
    /// ready. A transport that would block leaves the step not ready with the
    /// cursors where they are; a transport that failed fails the step.
    pub fn poll_send(&mut self, event: SendEvent) -> (action: SendAction)
        requires
            old(self)@.wf(),
            old(self)@.admits_send(event),
        ensures
            final(self)@ == old(self)@.send_step(event).0,
            action == old(self)@.send_step(event).1,
            final(self)@.wf(),
    {
        match event {
            SendEvent::Start => self.send_turn(),
            SendEvent::Written(n) => {
                self.send_pos = self.send_pos + n;
                self.send_turn()
            },
            SendEvent::Blocked => SendAction::Return(Outcome::NotReady),
            SendEvent::Broken => SendAction::Return(Outcome::Failed),
            SendEvent::Produced(Ok(n)) => {
                let capacity: usize = self.send_buf.len();
                self.send_end = self.send_end + n;
                self.send_flush = self.send_end == capacity;
                SendAction::Write
            },
            SendEvent::Produced(Err(EngineError::Done)) => SendAction::Return(Outcome::Ready),
            SendEvent::Produced(Err(EngineError::BufferTooShort)) => {
                self.send_flush = true;
                self.send_turn()
            },
            SendEvent::Produced(Err(err)) => SendAction::Close(err.to_close()),
            SendEvent::Closed => SendAction::Return(Outcome::NotReady),
        }
    }

    /// One move of the receive step, which reads from the transport into the
    /// receive buffer and feeds each chunk to the engine.
    ///
    /// The step reads and feeds in turn until the engine says that there is
    /// nothing more to process, which makes it ready. Any other engine error
    /// makes it ask for a close with the error's code, after which it is not
    /// ready. A transport that would block leaves it not ready; a transport
    /// that failed fails it.
    pub fn poll_recv(&self, event: RecvEvent) -> (action: RecvAction)
        requires
            self@.admits_recv(event),
        ensures
            action == self@.recv_step(event),
    {
        match event {
            RecvEvent::Start => RecvAction::Read,
            RecvEvent::Read(n) => RecvAction::Feed(n),
            RecvEvent::Blocked => RecvAction::Return(Outcome::NotReady),
            RecvEvent::Broken => RecvAction::Return(Outcome::Failed),
            RecvEvent::Fed(Ok(_)) => RecvAction::Read,
            RecvEvent::Fed(Err(EngineError::Done)) => RecvAction::Return(Outcome::Ready),
            RecvEvent::Fed(Err(err)) => RecvAction::Close(err.to_close()),
            RecvEvent::Closed => RecvAction::Return(Outcome::NotReady),
        }
    }

    /// One move of a bookkeeping cycle.
    ///
    /// If a timer exists it is polled, and the engine learns of it when it has
    /// fired. The engine is then asked for its next timeout: the timer is moved,
    /// or created where there was none, or dropped where the engine wants none.
    /// A receive step and a send step follow, each to its end. At last the
    /// engine is asked whether the connection is closed: the cycle is ready
    /// when it is, and not ready while it is not.
    pub fn poll_complete(&mut self, event: PumpEvent) -> (action: PumpAction)
        requires
            old(self)@.wf(),
            old(self)@.admits(event),
        ensures
            final(self)@ == old(self)@.pump_step(event).0,
            action == old(self)@.pump_step(event).1,
            final(self)@.wf(),
    {
        match event {
            PumpEvent::Start => {
                if self.timer {
                    PumpAction::PollTimer
                } else {
                    PumpAction::AskTimeout
                }
            },
            PumpEvent::Timer(fired) => {
                if fired {
                    PumpAction::NotifyTimeout
                } else {
                    PumpAction::AskTimeout
                }
            },
            PumpEvent::Notified => PumpAction::AskTimeout,
            PumpEvent::Timeout(Some(after)) => {
                let existed: bool = self.timer;
                self.timer = true;
                if existed {
                    PumpAction::SetTimer(TimerOp::Reset(after))
                } else {
                    PumpAction::SetTimer(TimerOp::Arm(after))
                }
            },
            PumpEvent::Timeout(None) => {
                self.timer = false;
                PumpAction::SetTimer(TimerOp::Cancel)
            },
            PumpEvent::TimerSet => PumpAction::Recv(self.poll_recv(RecvEvent::Start)),
            PumpEvent::Recv(e) => {
                match self.poll_recv(e) {
                    RecvAction::Return(Outcome::Failed) => PumpAction::Return(Outcome::Failed),
                    RecvAction::Return(_) => {
                        self.unread = match e {
                            RecvEvent::Blocked => false,
                            _ => true,
                        };
                        PumpAction::Send(self.poll_send(SendEvent::Start))
                    },
                    action => PumpAction::Recv(action),
                }
            },
            PumpEvent::Send(e) => {
                match self.poll_send(e) {
                    SendAction::Return(Outcome::Failed) => PumpAction::Return(Outcome::Failed),
                    SendAction::Return(_) => PumpAction::AskClosed,
                    action => PumpAction::Send(action),
                }
            },
            PumpEvent::Closed(closed) => {
                if closed {
                    PumpAction::Return(Outcome::Ready)
                } else {
                    PumpAction::Return(Outcome::NotReady)
                }
            },
        }
    }
}

/// The order of a bookkeeping cycle. The timer is polled at the start of a
/// cycle and nowhere else, and only if there is one; the engine is told of a
/// timeout exactly in answer to a timer that has fired, so once per cycle at
/// most and before the cycle's send step, which only the end of the receive
/// step begins; the end of the receive step leaves bytes unread unless the
/// transport blocked; and the cycle is ready exactly when the engine reports
/// the connection closed.
pub proof fn lemma_cycle_order(s: PumpState, event: PumpEvent)
    ensures
        s.pump_step(event).1 == PumpAction::PollTimer <==> event == PumpEvent::Start && s.timer,
        s.pump_step(event).1 == PumpAction::NotifyTimeout <==> event == PumpEvent::Timer(true),
        s.pump_step(event).1 is Send ==> event is Recv || event is Send,
        event is Recv && s.pump_step(event).1 is Send ==> s.pump_step(event).0.unread == (event
            != PumpEvent::Recv(RecvEvent::Blocked)),
        !(event is Recv) ==> s.pump_step(event).0.unread == s.unread,
        s.pump_step(event).1 == PumpAction::Return(Outcome::Ready) <==> event == PumpEvent::Closed(
            true,
        ),
{
}

} // verus!
