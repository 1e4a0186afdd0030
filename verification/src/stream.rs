//! The application's side of a stream: the messages that travel between a
//! stream handle and the driver, the handle itself, and the sequence of
//! accepted streams.

use crate::anchor::Anchor;
use vstd::prelude::*;

verus! {

/// The unit that travels between the driver and a stream handle.
#[derive(Debug, PartialEq, Eq)]
pub enum Message {
    /// A chunk of stream bytes.
    Bytes(Vec<u8>),
    /// The last chunk of a direction: the end of the stream follows it.
    End(Vec<u8>),
    /// The handle is gone.
    Close,
}

/// A message as the contracts see it.
pub enum MessageView {
    Bytes(Seq<u8>),
    End(Seq<u8>),
    Close,
}

impl View for Message {
    type V = MessageView;

    open spec fn view(&self) -> MessageView {
        match self {
            Message::Bytes(data) => MessageView::Bytes(data@),
            Message::End(data) => MessageView::End(data@),
            Message::Close => MessageView::Close,
        }
    }
}

impl DeepView for Message {
    type V = MessageView;

    open spec fn deep_view(&self) -> MessageView {
        self@
    }
}

/// A stream handle as the contracts see it.
pub struct StreamState {
    /// The stream identifier.
    pub id: u64,
    /// Whether the end of the inbound direction was observed.
    pub read_done: bool,
    /// Whether the end of the outbound direction was enqueued.
    pub write_done: bool,
}

impl StreamState {
    /// What a write enqueues: a chunk, unless the outbound direction has ended.
    pub open spec fn write(self, data: Seq<u8>) -> Option<MessageView> {
        if self.write_done {
            None
        } else {
            Some(MessageView::Bytes(data))
        }
    }

    /// The handle after `finish`, and what it enqueues: the terminal chunk,
    /// unless the outbound direction has ended before.
    pub open spec fn finish(self, data: Seq<u8>) -> (StreamState, Option<MessageView>) {
        if self.write_done {
            (self, None)
        } else {
            (StreamState { write_done: true, ..self }, Some(MessageView::End(data)))
        }
    }

    /// The handle after it dequeued `item` (`None` when the channel is closed),
    /// and the chunk that the reader observes. A terminal chunk is observed and
    /// ends the direction; a closed channel or a close notification ends it
    /// without a chunk; nothing is observed after the end.
    pub open spec fn read(self, item: Option<MessageView>) -> (StreamState, Option<Seq<u8>>) {
        if self.read_done {
            (self, None)
        } else {
            match item {
                Some(MessageView::Bytes(data)) => (self, Some(data)),
                Some(MessageView::End(data)) => (
                    StreamState { read_done: true, ..self },
                    Some(data),
                ),
                _ => (StreamState { read_done: true, ..self }, None),
            }
        }
    }
}

/// One end of a stream: a duplex byte channel, named by its stream identifier
/// and paired with the driver's end.
#[derive(Debug, PartialEq, Eq)]
pub struct QuicStream {
    id: u64,
    read_done: bool,
    write_done: bool,
}

impl View for QuicStream {
    type V = StreamState;

    closed spec fn view(&self) -> StreamState {
        StreamState { id: self.id, read_done: self.read_done, write_done: self.write_done }
    }
}

impl QuicStream {
    /// A handle for the stream `id` with both directions open.
    pub fn new(id: u64) -> (stream: QuicStream)
        ensures
            stream@ == (StreamState { id, read_done: false, write_done: false }),
    {
        QuicStream { id, read_done: false, write_done: false }
    }

    /// The stream identifier.
    pub fn id(&self) -> (id: u64)
        ensures
            id == self@.id,
    {
        self.id
    }

    /// Whether the end of the inbound direction was observed.
    pub fn is_read_done(&self) -> (done: bool)
        ensures
            done == self@.read_done,
    {
        self.read_done
    }

    /// Whether the end of the outbound direction was enqueued.
    pub fn is_write_done(&self) -> (done: bool)
        ensures
            done == self@.write_done,
    {
        self.write_done
    }

    /// The message to enqueue for a write of `data`: a chunk that holds it, or
    /// none once the outbound direction has ended.
    pub fn write(&self, data: Vec<u8>) -> (message: Option<Message>)
        ensures
            message.deep_view() == self@.write(data@),
    {
        if self.write_done {
            None
        } else {
            Some(Message::Bytes(data))
        }
    }

    /// Ends the outbound direction with a last chunk of `data`, and gives the
    /// message to enqueue: the terminal chunk, or none if the direction had
    /// ended already.
    pub fn finish(&mut self, data: Vec<u8>) -> (message: Option<Message>)
        ensures
            final(self)@ == old(self)@.finish(data@).0,
            message.deep_view() == old(self)@.finish(data@).1,
    {
        if self.write_done {
            None
        } else {
            self.write_done = true;
            Some(Message::End(data))
        }
    }

    /// Takes what was dequeued from the inbound channel (`None` when the channel
    /// is closed) and gives the chunk that the reader observes, if any. Chunks
    /// come out in the order in which they went in, a terminal chunk is the last
    /// one, and after the end nothing comes out.
    pub fn read(&mut self, item: Option<Message>) -> (chunk: Option<Vec<u8>>)
        ensures
            final(self)@ == old(self)@.read(item.deep_view()).0,
            chunk.deep_view() == old(self)@.read(item.deep_view()).1,
    {
        if self.read_done {
            return None;
        }
        match item {
            Some(Message::Bytes(data)) => Some(data),
            Some(Message::End(data)) => {
                self.read_done = true;
                Some(data)
            },
            _ => {
                self.read_done = true;
                None
            },
        }
    }

    /// Gives the handle up, and with it the handle's hold on `anchor`. The
    /// message is the close notification, which the caller enqueues if the
    /// channel takes it and forgets if not; `fire` says whether this was the
    /// last hold, so that the close signal fires now.
    pub fn close(self, anchor: &mut Anchor) -> (end: (Message, bool))
        ensures
            end.0@ == MessageView::Close,
            final(anchor)@ == old(anchor)@.release().0,
            end.1 == old(anchor)@.release().1,
    {
        let fire: bool = anchor.release();
        (Message::Close, fire)
    }
}

/// The sequence of accepted streams as the contracts see it.
pub struct IncomingState {
    /// Whether the end of the sequence was observed.
    pub ended: bool,
}

/// The sequence of streams that the peer opened and the driver accepted.
#[derive(Debug, PartialEq, Eq)]
pub struct Incoming {
    ended: bool,
}

impl View for Incoming {
    type V = IncomingState;

    closed spec fn view(&self) -> IncomingState {
        IncomingState { ended: self.ended }
    }
}

impl Incoming {
    /// A sequence that has not ended.
    pub fn new() -> (incoming: Incoming)
        ensures
            !incoming@.ended,
    {
        Incoming { ended: false }
    }

    /// Whether the end of the sequence was observed.
    pub fn is_ended(&self) -> (ended: bool)
        ensures
            ended == self@.ended,
    {
        self.ended
    }

    /// Passes on what was dequeued from the accepted-stream channel (`None` when
    /// the channel is closed). The first `None` ends the sequence, and an ended
    /// sequence yields nothing more: it cannot be restarted. `T` is whatever
    /// carries a stream's handle through the channel.
    pub fn poll<T>(&mut self, item: Option<T>) -> (stream: Option<T>)
        ensures
            final(self)@.ended == (old(self)@.ended || item is None),
            stream == (if old(self)@.ended {
                None
            } else {
                item
            }),
    {
        if self.ended {
            return None;
        }
        if item.is_none() {
            self.ended = true;
        }
        item
    }
}

} // verus!
