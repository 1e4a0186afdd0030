//! The driver: the background task's decisions once the handshake is over.
//!
//! An iteration of the driver is a conversation like a pump step, opened with
//! `Start`. While it sweeps the readable streams and drains the handles'
//! channels, the caller reports each stream event through the methods below,
//! which keep the stream table.

use crate::anchor::{Anchor, AnchorState};
use crate::engine::{is_peer_opened, peer_opened, EngineError};
use crate::pump::{Inner, Outcome, PumpState};
use crate::stream::{Message, MessageView, QuicStream, StreamState};
use std::collections::HashMap;
use vstd::prelude::*;

verus! {

broadcast use vstd::std_specs::hash::group_hash_axioms;

/// What the stream table keeps of a stream.
#[derive(Clone, Copy, Debug, PartialEq, Eq, Structural)]
pub struct StreamEntry {
    /// Whether the engine delivered the end of the inbound direction.
    pub recv_done: bool,
    /// Whether the end of the outbound direction went to the engine.
    pub send_done: bool,
}

/// What happened since the last action of a driver iteration.
#[derive(Clone, Copy, Debug, PartialEq, Eq, Structural)]
pub enum DriverEvent {
    /// The iteration begins.
    Start,
    /// The bookkeeping cycle on the adapter ended this way.
    Pumped(Outcome),
    /// Every stream that the engine reports as readable was reported.
    Swept,
    /// Every message that waited in a handle's channel was reported.
    Drained,
    /// The close signal was polled; `true` when it has fired.
    Signal(bool),
    /// The close signal can no longer come: the channel that carries it broke
    /// before it fired.
    SignalLost,
    /// Whether the engine reports the connection closed.
    Closed(bool),
}

/// What a driver iteration asks for next.
#[derive(Clone, Copy, Debug, PartialEq, Eq, Structural)]
pub enum DriverAction {
    /// Run a bookkeeping cycle on the adapter.
    Pump,
    /// Report every stream that the engine says is readable.
    Sweep,
    /// Report every message that waits in a handle's channel.
    Drain,
    /// Poll the close signal.
    CheckSignal,
    /// Ask the engine whether the connection is closed.
    AskClosed,
    /// The iteration is over and work is left: begin the next iteration at
    /// once, with `Start`, in the same poll of the task.
    Again,
    /// The poll of the task is over. `Ready`: the loop has exited and the task
    /// is complete. `Failed`: the transport or the close channel failed, and the
    /// task ends with an error. `NotReady`: the iteration was idle; the task
    /// gives way to the scheduler and begins its next iteration when the
    /// transport, the timer, a channel or the close signal wakes it.
    Return(Outcome),
}

/// What to do about a stream that the engine reports as readable.
#[derive(Debug, PartialEq, Eq)]
pub enum Readable {
    /// The stream is new and is now in the table. `stream` is its handle, which
    /// has a hold on the anchor. Where `accept` holds the peer opened it, and
    /// the handle goes to the sequence of accepted streams. Where it does not,
    /// this side opened the stream, which is registered here, the first time
    /// the engine has bytes for it, and not when it was opened: the handle is
    /// for whoever opened the stream, and a caller that knows nobody who waits
    /// for it gives the handle up with `QuicStream::close`, whose close
    /// notification shuts the stream down at the next drain.
    Open { stream: QuicStream, accept: bool },
    /// The stream is in the table: pull its bytes from the engine and report
    /// them.
    Pull,
    /// The stream is new, and no handle is left that could take an interest in
    /// it: shut it down.
    Shut,
}

/// `Readable` as the contracts see it.
pub enum ReadableView {
    Open { stream: StreamState, accept: bool },
    Pull,
    Shut,
}

impl View for Readable {
    type V = ReadableView;

    open spec fn view(&self) -> ReadableView {
        match self {
            Readable::Open { stream, accept } => ReadableView::Open {
                stream: stream@,
                accept: *accept,
            },
            Readable::Pull => ReadableView::Pull,
            Readable::Shut => ReadableView::Shut,
        }
    }
}

/// What to ask of the engine for one stream.
#[derive(Debug, PartialEq, Eq)]
pub enum StreamOp {
    /// Hand these bytes to the stream's send call, with this end-of-stream flag.
    Send { id: u64, data: Vec<u8>, fin: bool },
    /// Shut the stream down in both directions.
    Shutdown { id: u64 },
    /// Nothing.
    Nothing,
}

/// `StreamOp` as the contracts see it.
pub enum StreamOpView {
    Send { id: u64, data: Seq<u8>, fin: bool },
    Shutdown { id: u64 },
    Nothing,
}

impl View for StreamOp {
    type V = StreamOpView;

    open spec fn view(&self) -> StreamOpView {
        match self {
            StreamOp::Send { id, data, fin } => StreamOpView::Send {
                id: *id,
                data: data@,
                fin: *fin,
            },
            StreamOp::Shutdown { id } => StreamOpView::Shutdown { id: *id },
            StreamOp::Nothing => StreamOpView::Nothing,
        }
    }
}

/// The driver as the contracts see it.
pub struct DriverState {
    /// The adapter.
    pub pump: PumpState,
    /// Whether the close signal was seen to have fired.
    pub closing: bool,
    /// Whether a stream moved since the iteration began: the engine reported
    /// one readable or delivered bytes on one, or was asked to send on one or
    /// to shut one down.
    pub busy: bool,
    /// The stream table.
    pub streams: Map<u64, StreamEntry>,
}

impl DriverState {
    /// The driver after a stream moved.
    pub open spec fn worked(self) -> DriverState {
        DriverState { busy: true, ..self }
    }

    /// The table after the stream `id` reached the state `entry`: a stream that
    /// is finished in both directions leaves the table.
    pub open spec fn settle(self, id: u64, entry: StreamEntry) -> DriverState {
        if entry.recv_done && entry.send_done {
            DriverState { streams: self.streams.remove(id), ..self }
        } else {
            DriverState { streams: self.streams.insert(id, entry), ..self }
        }
    }

    /// The engine reports the stream `id` as readable. A stream of the table is
    /// pulled. An unseen one needs a hold on the anchor for its handle: where
    /// the anchor grants it, the stream enters the table with both directions
    /// open and gets the handle, to be accepted if the peer opened it; where
    /// the anchor refuses, the stream is to be shut down.
    pub open spec fn readable(self, id: u64, anchor: AnchorState) -> (
        DriverState,
        AnchorState,
        ReadableView,
    ) {
        if self.streams.contains_key(id) {
            (self.worked(), anchor, ReadableView::Pull)
        } else if !anchor.hold().1 {
            (self.worked(), anchor, ReadableView::Shut)
        } else {
            (
                DriverState {
                    streams: self.streams.insert(
                        id,
                        StreamEntry { recv_done: false, send_done: false },
                    ),
                    busy: true,
                    ..self
                },
                anchor.hold().0,
                ReadableView::Open {
                    stream: StreamState { id, read_done: false, write_done: false },
                    accept: peer_opened(id),
                },
            )
        }
    }

    /// The engine delivered `data` on the stream `id`, with `fin` when the
    /// inbound direction is finished. The answer is the message for the
    /// stream's handle: a terminal chunk on `fin`, a chunk otherwise, and none
    /// for a stream that is not in the table or whose inbound direction has
    /// ended.
    pub open spec fn chunk(self, id: u64, data: Seq<u8>, fin: bool) -> (
        DriverState,
        Option<MessageView>,
    ) {
        if !self.streams.contains_key(id) || self.streams[id].recv_done {
            (self.worked(), None)
        } else if fin {
            (
                self.settle(id, StreamEntry { recv_done: true, ..self.streams[id] }).worked(),
                Some(MessageView::End(data)),
            )
        } else {
            (self.worked(), Some(MessageView::Bytes(data)))
        }
    }

    /// The handle of the stream `id` could not be delivered, or a message for it
    /// could not: the stream leaves the table and is shut down.
    pub open spec fn reject(self, id: u64) -> (DriverState, StreamOpView) {
        (
            DriverState { streams: self.streams.remove(id), busy: true, ..self },
            StreamOpView::Shutdown { id },
        )
    }

    /// The engine answered a send of `offered` bytes on the stream `id`. Where
    /// it took them all, nothing is left to do. Where it took fewer, or none, or
    /// failed, the stream can no longer carry its bytes whole and in order: it
    /// leaves the table and is shut down, rather than lose bytes in silence or
    /// hold the driver up.
    pub open spec fn sent(self, id: u64, offered: usize, answer: Result<usize, EngineError>) -> (
        DriverState,
        StreamOpView,
    ) {
        if answer == Ok::<usize, EngineError>(offered) {
            (self, StreamOpView::Nothing)
        } else {
            self.reject(id)
        }
    }

    /// The channel of the handle of the stream `id` gave `item`: a message, or
    /// `None` when the channel is closed. Chunks go to the engine, a terminal
    /// chunk with the end-of-stream flag. A close notification shuts the stream
    /// down and takes it out of the table, and so does a closed channel.
    /// Nothing happens for a stream that is not in the table, nor for chunks
    /// behind a terminal one.
    pub open spec fn message(self, id: u64, item: Option<MessageView>) -> (
        DriverState,
        StreamOpView,
    ) {
        if !self.streams.contains_key(id) {
            (self, StreamOpView::Nothing)
        } else {
            match item {
                None => self.reject(id),
                Some(MessageView::Close) => self.reject(id),
                Some(MessageView::Bytes(data)) => if self.streams[id].send_done {
                    (self, StreamOpView::Nothing)
                } else {
                    (self.worked(), StreamOpView::Send { id, data, fin: false })
                },
                Some(MessageView::End(data)) => if self.streams[id].send_done {
                    (self, StreamOpView::Nothing)
                } else {
                    (
                        self.settle(
                            id,
                            StreamEntry { send_done: true, ..self.streams[id] },
                        ).worked(),
                        StreamOpView::Send { id, data, fin: true },
                    )
                },
            }
        }
    }

    /// One move of a driver iteration.
    ///
    /// An iteration pumps the adapter, sweeps the readable streams, drains the
    /// handles' channels, polls the close signal and asks whether the
    /// connection is closed, in this order. A failure of the transport or of the
    /// close channel ends the task at once; a closed connection ends it at the
    /// end of the iteration. Once the close signal was seen, the next iteration
    /// is the last: it begins at once, drains the handles' channels once more
    /// and ends the task, without a pump.
    ///
    /// An iteration that ends none of this ends the poll not ready if it was
    /// idle, so that the task waits to be woken: no stream moved, and the
    /// receive step of its cycle ended because the transport would block.
    /// Otherwise work is left that nothing would announce, and the next
    /// iteration begins at once.
    pub open spec fn step(self, event: DriverEvent) -> (DriverState, DriverAction) {
        match event {
            DriverEvent::Start => (
                DriverState { busy: false, ..self },
                if self.closing {
                    DriverAction::Drain
                } else {
                    DriverAction::Pump
                },
            ),
            DriverEvent::Pumped(Outcome::Failed) => (self, DriverAction::Return(Outcome::Failed)),
            DriverEvent::Pumped(_) => (self, DriverAction::Sweep),
            DriverEvent::Swept => (self, DriverAction::Drain),
            DriverEvent::Drained => (
                self,
                if self.closing {
                    DriverAction::Return(Outcome::Ready)
                } else {
                    DriverAction::CheckSignal
                },
            ),
            DriverEvent::Signal(fired) => (
                DriverState { closing: self.closing || fired, ..self },
                DriverAction::AskClosed,
            ),
            DriverEvent::SignalLost => (self, DriverAction::Return(Outcome::Failed)),
            DriverEvent::Closed(closed) => (
                self,
                if closed {
                    DriverAction::Return(Outcome::Ready)
                } else if self.closing || self.busy || self.pump.unread {
                    DriverAction::Again
                } else {
                    DriverAction::Return(Outcome::NotReady)
                },
            ),
        }
    }
}

/// The background task of a connection: it owns the adapter after the
/// handshake and the stream table, and it alone changes either.
#[derive(Debug, PartialEq, Eq)]
pub struct Driver {
    inner: Inner,
    closing: bool,
    busy: bool,
    stream_map: HashMap<u64, StreamEntry>,
}

impl View for Driver {
    type V = DriverState;

    closed spec fn view(&self) -> DriverState {
        DriverState {
            pump: self.inner@,
            closing: self.closing,
            busy: self.busy,
            streams: self.stream_map@,
        }
    }
}

impl Driver {
    /// A driver that owns `inner`, has not seen the close signal and tracks no
    /// stream.
    pub fn new(inner: Inner) -> (driver: Driver)
        ensures
            driver@ == (DriverState {
                pump: inner@,
                closing: false,
                busy: false,
                streams: Map::empty(),
            }),
    {
        Driver { inner, closing: false, busy: false, stream_map: HashMap::new() }
    }

    /// The adapter, for the pump steps that `Pump` asks for.
    pub fn inner_mut(&mut self) -> (inner: &mut Inner)
        ensures
            inner@ == old(self)@.pump,
            final(self)@ == (DriverState { pump: final(inner)@, ..old(self)@ }),
    {
        &mut self.inner
    }

    /// Whether the close signal was seen to have fired.
    pub fn is_closing(&self) -> (closing: bool)
        ensures
            closing == self@.closing,
    {
        self.closing
    }

    /// Whether a stream moved since the iteration began.
    pub fn is_busy(&self) -> (busy: bool)
        ensures
            busy == self@.busy,
    {
        self.busy
    }

    /// Whether the stream `id` is in the table.
    pub fn tracks(&self, id: u64) -> (known: bool)
        ensures
            known == self@.streams.contains_key(id),
    {
        self.stream_map.contains_key(&id)
    }

    /// What the table keeps of the stream `id`, if it is there.
    pub fn entry(&self, id: u64) -> (entry: Option<StreamEntry>)
        ensures
            entry == (if self@.streams.contains_key(id) {
                Some(self@.streams[id])
            } else {
                None
            }),
    {
        match self.stream_map.get(&id) {
            Some(entry) => Some(*entry),
            None => None,
        }
    }

    /// Records that the stream `id` reached the state `entry`.
    fn settle(&mut self, id: u64, entry: StreamEntry)
        ensures
            final(self)@ == old(self)@.settle(id, entry),
    {
        if entry.recv_done && entry.send_done {
            self.stream_map.remove(&id);
        } else {
            self.stream_map.insert(id, entry);
        }
    }

    /// Takes the report that the engine has the stream `id` readable, and says
    /// what to do about it. The handle of a new stream takes its hold on
    /// `anchor` here.
    pub fn on_readable(&mut self, id: u64, anchor: &mut Anchor) -> (action: Readable)
        ensures
            final(self)@ == old(self)@.readable(id, old(anchor)@).0,
            final(anchor)@ == old(self)@.readable(id, old(anchor)@).1,
            action@ == old(self)@.readable(id, old(anchor)@).2,
    {
        self.busy = true;
        if self.stream_map.contains_key(&id) {
            Readable::Pull
        } else if !anchor.hold() {
            Readable::Shut
        } else {
            self.stream_map.insert(id, StreamEntry { recv_done: false, send_done: false });
            Readable::Open { stream: QuicStream::new(id), accept: is_peer_opened(id) }
        }
    }

    /// Takes a chunk that the engine delivered on the stream `id`, and gives the
    /// message to forward to the stream's handle, if any.
    pub fn on_chunk(&mut self, id: u64, data: Vec<u8>, fin: bool) -> (message: Option<Message>)
        ensures
            final(self)@ == old(self)@.chunk(id, data@, fin).0,
            message.deep_view() == old(self)@.chunk(id, data@, fin).1,
    {
        self.busy = true;
        match self.entry(id) {
            None => None,
            Some(entry) => {
                if entry.recv_done {
                    None
                } else if fin {
                    self.settle(id, StreamEntry { recv_done: true, send_done: entry.send_done });
                    Some(Message::End(data))
                } else {
                    Some(Message::Bytes(data))
                }
            },
        }
    }

    /// Takes the report that the handle of the stream `id`, or a message for it,
    /// could not be delivered because nobody is there to receive it. The stream
    /// leaves the table, and the answer asks the engine to shut it down.
    pub fn reject(&mut self, id: u64) -> (op: StreamOp)
        ensures
            final(self)@ == old(self)@.reject(id).0,
            op@ == old(self)@.reject(id).1,
    {
        self.busy = true;
        self.stream_map.remove(&id);
        StreamOp::Shutdown { id }
    }

    /// Takes the engine's answer to a send of `offered` bytes on the stream
    /// `id`, and says what to ask of the engine next: nothing where it took
    /// them all, the shutdown of the stream where it did not.
    pub fn on_sent(&mut self, id: u64, offered: usize, answer: Result<usize, EngineError>) -> (op:
        StreamOp)
        ensures
            final(self)@ == old(self)@.sent(id, offered, answer).0,
            op@ == old(self)@.sent(id, offered, answer).1,
    {
        match answer {
            Ok(taken) => {
                if taken == offered {
                    StreamOp::Nothing
                } else {
                    self.reject(id)
                }
            },
            Err(_) => self.reject(id),
        }
    }

    /// Takes what the channel of the handle of the stream `id` gave, a message
    /// or `None` when the channel is closed, and says what to ask of the engine.
    pub fn on_message(&mut self, id: u64, item: Option<Message>) -> (op: StreamOp)
        ensures
            final(self)@ == old(self)@.message(id, item.deep_view()).0,
            op@ == old(self)@.message(id, item.deep_view()).1,
    {
        match self.entry(id) {
            None => StreamOp::Nothing,
            Some(entry) => {
                match item {
                    None => self.reject(id),
                    Some(Message::Close) => self.reject(id),
                    Some(Message::Bytes(data)) => {
                        if entry.send_done {
                            StreamOp::Nothing
                        } else {
                            self.busy = true;
                            StreamOp::Send { id, data, fin: false }
                        }
                    },
                    Some(Message::End(data)) => {
                        if entry.send_done {
                            StreamOp::Nothing
                        } else {
                            self.settle(
                                id,
                                StreamEntry { recv_done: entry.recv_done, send_done: true },
                            );
                            self.busy = true;
                            StreamOp::Send { id, data, fin: true }
                        }
                    },
                }
            },
        }
    }

    /// One move of a driver iteration.
    pub fn poll(&mut self, event: DriverEvent) -> (action: DriverAction)
        ensures
            final(self)@ == old(self)@.step(event).0,
            action == old(self)@.step(event).1,
    {
        match event {
            DriverEvent::Start => {
                self.busy = false;
                if self.closing {
                    DriverAction::Drain
                } else {
                    DriverAction::Pump
                }
            },
            DriverEvent::Pumped(Outcome::Failed) => DriverAction::Return(Outcome::Failed),
            DriverEvent::Pumped(_) => DriverAction::Sweep,
            DriverEvent::Swept => DriverAction::Drain,
            DriverEvent::Drained => {
                if self.closing {
                    DriverAction::Return(Outcome::Ready)
                } else {
                    DriverAction::CheckSignal
                }
            },
            DriverEvent::Signal(fired) => {
                self.closing = self.closing || fired;
                DriverAction::AskClosed
            },
            DriverEvent::SignalLost => DriverAction::Return(Outcome::Failed),
            DriverEvent::Closed(closed) => {
                if closed {
                    DriverAction::Return(Outcome::Ready)
                } else if self.closing || self.busy || self.inner.has_unread() {
                    DriverAction::Again
                } else {
                    DriverAction::Return(Outcome::NotReady)
                }
            },
        }
    }
}

/// How an iteration ends when its bookkeeping cycle ended with `pumped` and
/// left the adapter as `d` holds it, streams moved during the sweep and the
/// drain if `worked` says so, the close signal was polled as `fired` and the
/// engine reported `closed`: the driver after the iteration, and the action
/// that ends it, `Again` or `Return`.
pub open spec fn iteration(
    d: DriverState,
    pumped: Outcome,
    worked: bool,
    fired: bool,
    closed: bool,
) -> (DriverState, DriverAction) {
    let begun = d.step(DriverEvent::Start).0;
    if d.step(DriverEvent::Start).1 == DriverAction::Drain {
        begun.step(DriverEvent::Drained)
    } else if begun.step(DriverEvent::Pumped(pumped)).1 != DriverAction::Sweep {
        begun.step(DriverEvent::Pumped(pumped))
    } else {
        (DriverState { busy: worked, ..begun }).step(DriverEvent::Signal(fired)).0.step(
            DriverEvent::Closed(closed),
        )
    }
}

/// Once the close signal was seen, the driver never pumps again and never
/// waits, and its next iteration is a single drain that ends the task. No event
/// takes the mark back.
pub proof fn lemma_closing_ends_the_task(d: DriverState, event: DriverEvent)
    requires
        d.closing,
    ensures
        d.step(event).0.closing,
        d.step(event).1 != DriverAction::Pump,
        d.step(event).1 != DriverAction::Return(Outcome::NotReady),
        d.step(DriverEvent::Start).1 == DriverAction::Drain,
        d.step(DriverEvent::Drained).1 == DriverAction::Return(Outcome::Ready),
        forall|pumped: Outcome, worked: bool, fired: bool, closed: bool| #[trigger]
            iteration(d, pumped, worked, fired, closed).1 == DriverAction::Return(Outcome::Ready),
{
}

/// How the loop goes on, and when it ends.
///
/// An iteration whose transport failed ends the task at once. The loop ends at
/// the end of the iteration in which the engine reports the connection closed,
/// and at most one iteration after the one in which the close signal fired:
/// that iteration asks for one more at once, and the one more ends the task
/// whatever the transport, the streams, the signal and the engine say. No other
/// iteration ends the task. An iteration that ends nothing ends the poll not
/// ready exactly when it was idle, with no stream moved and nothing left
/// unread at the transport; otherwise it asks for the next iteration at once.
pub proof fn lemma_loop_exit(
    d: DriverState,
    pumped: Outcome,
    worked: bool,
    fired: bool,
    closed: bool,
)
    requires
        !d.closing,
    ensures
        pumped == Outcome::Failed ==> iteration(d, pumped, worked, fired, closed).1
            == DriverAction::Return(Outcome::Failed),
        pumped != Outcome::Failed && closed ==> iteration(d, pumped, worked, fired, closed).1
            == DriverAction::Return(Outcome::Ready),
        pumped != Outcome::Failed && !closed ==> iteration(d, pumped, worked, fired, closed).1
            == (if fired || worked || d.pump.unread {
            DriverAction::Again
        } else {
            DriverAction::Return(Outcome::NotReady)
        }),
        pumped != Outcome::Failed ==> iteration(d, pumped, worked, fired, closed).0.closing
            == fired,
        pumped != Outcome::Failed && fired ==> forall|p: Outcome, w: bool, f: bool, c: bool|
            #[trigger] iteration(iteration(d, pumped, worked, fired, closed).0, p, w, f, c).1
                == DriverAction::Return(Outcome::Ready),
        iteration(d, pumped, worked, fired, closed).0.streams == d.streams,
        iteration(d, pumped, worked, fired, closed).0.pump == d.pump,
{
}

/// A stream that the peer opened and that cannot be delivered, because the
/// sequence of accepted streams is gone, is shut down and leaves nothing
/// behind. While another handle still holds the anchor, the new stream gets a
/// handle that is marked for acceptance; once that handle came back undelivered
/// and was given up, the table and the anchor are as they were before the
/// stream was seen, and the signal has not fired.
pub proof fn lemma_undelivered_stream_is_shut_down(d: DriverState, anchor: AnchorState, id: u64)
    requires
        !d.streams.contains_key(id),
        peer_opened(id),
        !anchor.fired,
        0 < anchor.holders < usize::MAX,
    ensures
        d.readable(id, anchor).2 == (ReadableView::Open {
            stream: StreamState { id, read_done: false, write_done: false },
            accept: true,
        }),
        d.readable(id, anchor).0.reject(id).1 == (StreamOpView::Shutdown { id }),
        d.readable(id, anchor).0.reject(id).0 == d.worked(),
        d.readable(id, anchor).1.release() == (anchor, false),
{
    assert(d.readable(id, anchor).0.reject(id).0.streams =~= d.streams);
}

/// A new stream that becomes readable when the close signal has fired gets no
/// handle and no entry: it is shut down.
pub proof fn lemma_no_stream_opens_after_the_signal(d: DriverState, anchor: AnchorState, id: u64)
    requires
        !d.streams.contains_key(id),
        anchor.fired,
    ensures
        d.readable(id, anchor) == (d.worked(), anchor, ReadableView::Shut),
{
}

/// The driver after each stream of `ids` was reported readable while `anchor`
/// stood as given, and was then rejected, in order.
pub open spec fn after_rejected(d: DriverState, anchor: AnchorState, ids: Seq<u64>) -> DriverState
    decreases ids.len(),
{
    if ids.len() == 0 {
        d
    } else {
        after_rejected(d, anchor, ids.drop_last()).readable(ids.last(), anchor).0.reject(
            ids.last(),
        ).0
    }
}

/// However many streams the peer opens while nobody accepts them, none is
/// queued: after all of them were reported and rejected, the table is as it
/// was, and so is all else of the driver but the mark that streams moved.
pub proof fn lemma_nothing_queued_without_acceptor(
    d: DriverState,
    anchor: AnchorState,
    ids: Seq<u64>,
)
    requires
        forall|i: int| 0 <= i < ids.len() ==> !d.streams.contains_key(#[trigger] ids[i]),
    ensures
        after_rejected(d, anchor, ids) == (DriverState { busy: d.busy || ids.len() > 0, ..d }),
    decreases ids.len(),
{
    if ids.len() > 0 {
        let before = ids.drop_last();
        lemma_nothing_queued_without_acceptor(d, anchor, before);
        let mid = after_rejected(d, anchor, before);
        assert(mid.readable(ids.last(), anchor).0.reject(ids.last()).0.streams =~= d.streams);
    }
}

} // verus!
