//! The two directions of one stream over whole histories: what the driver
//! forwards of what the engine delivers and what the reader observes of it, and
//! what the handle enqueues of what the application writes and what the driver
//! asks of the engine for it.
//!
//! The channel between driver and handle is taken to hand messages on in the
//! order in which they were enqueued.

use crate::driver::{DriverState, StreamOpView};
use crate::stream::{MessageView, StreamState};
use vstd::prelude::*;

verus! {

/// One piece of a stream direction: the bytes, and whether the direction ends
/// with them. It stands for an answer of the engine's stream receive call, and
/// for a write or a finish on a handle.
pub struct Chunk {
    pub data: Seq<u8>,
    pub fin: bool,
}

impl Chunk {
    /// The message that carries the piece: a terminal chunk when it ends the
    /// direction, a chunk otherwise.
    pub open spec fn message(self) -> MessageView {
        if self.fin {
            MessageView::End(self.data)
        } else {
            MessageView::Bytes(self.data)
        }
    }
}

/// Whether one of the pieces ends the direction.
pub open spec fn finished(chunks: Seq<Chunk>) -> bool
    decreases chunks.len(),
{
    chunks.len() > 0 && (finished(chunks.drop_last()) || chunks.last().fin)
}

/// How many of the pieces count: all up to the first that ends the direction,
/// that one included.
pub open spec fn live(chunks: Seq<Chunk>) -> nat
    decreases chunks.len(),
{
    if chunks.len() == 0 {
        0
    } else if finished(chunks.drop_last()) {
        live(chunks.drop_last())
    } else {
        chunks.len()
    }
}

/// The driver after the engine delivered these pieces on the stream `id`.
pub open spec fn driver_after(d: DriverState, id: u64, deliveries: Seq<Chunk>) -> DriverState
    decreases deliveries.len(),
{
    if deliveries.len() == 0 {
        d
    } else {
        driver_after(d, id, deliveries.drop_last()).chunk(
            id,
            deliveries.last().data,
            deliveries.last().fin,
        ).0
    }
}

/// The messages that the driver forwards to the handle of the stream `id` for
/// these deliveries, in order.
pub open spec fn forwarded(d: DriverState, id: u64, deliveries: Seq<Chunk>) -> Seq<MessageView>
    decreases deliveries.len(),
{
    if deliveries.len() == 0 {
        Seq::empty()
    } else {
        let before = forwarded(d, id, deliveries.drop_last());
        match driver_after(d, id, deliveries.drop_last()).chunk(
            id,
            deliveries.last().data,
            deliveries.last().fin,
        ).1 {
            Some(message) => before.push(message),
            None => before,
        }
    }
}

/// The handle after it dequeued these messages.
pub open spec fn handle_after(s: StreamState, messages: Seq<MessageView>) -> StreamState
    decreases messages.len(),
{
    if messages.len() == 0 {
        s
    } else {
        handle_after(s, messages.drop_last()).read(Some(messages.last())).0
    }
}

/// The chunks that the reader observes when the handle dequeues these
/// messages, in order.
pub open spec fn observed(s: StreamState, messages: Seq<MessageView>) -> Seq<Seq<u8>>
    decreases messages.len(),
{
    if messages.len() == 0 {
        Seq::empty()
    } else {
        let before = observed(s, messages.drop_last());
        match handle_after(s, messages.drop_last()).read(Some(messages.last())).1 {
            Some(chunk) => before.push(chunk),
            None => before,
        }
    }
}

/// The handle after the application made these writes, a piece with `fin`
/// being a finish.
pub open spec fn handle_after_writes(s: StreamState, writes: Seq<Chunk>) -> StreamState
    decreases writes.len(),
{
    if writes.len() == 0 {
        s
    } else if writes.last().fin {
        handle_after_writes(s, writes.drop_last()).finish(writes.last().data).0
    } else {
        handle_after_writes(s, writes.drop_last())
    }
}

/// The messages that the handle enqueues for these writes, in order.
pub open spec fn enqueued(s: StreamState, writes: Seq<Chunk>) -> Seq<MessageView>
    decreases writes.len(),
{
    if writes.len() == 0 {
        Seq::empty()
    } else {
        let before = enqueued(s, writes.drop_last());
        let handle = handle_after_writes(s, writes.drop_last());
        let message = if writes.last().fin {
            handle.finish(writes.last().data).1
        } else {
            handle.write(writes.last().data)
        };
        match message {
            Some(message) => before.push(message),
            None => before,
        }
    }
}

/// The driver after it took these messages from the handle of the stream `id`.
pub open spec fn driver_after_messages(
    d: DriverState,
    id: u64,
    messages: Seq<MessageView>,
) -> DriverState
    decreases messages.len(),
{
    if messages.len() == 0 {
        d
    } else {
        driver_after_messages(d, id, messages.drop_last()).message(id, Some(messages.last())).0
    }
}

/// What the driver asks of the engine for these messages of the handle of the
/// stream `id`, in order.
pub open spec fn asked(d: DriverState, id: u64, messages: Seq<MessageView>) -> Seq<StreamOpView>
    decreases messages.len(),
{
    if messages.len() == 0 {
        Seq::empty()
    } else {
        let before = asked(d, id, messages.drop_last());
        let op = driver_after_messages(d, id, messages.drop_last()).message(
            id,
            Some(messages.last()),
        ).1;
        if op is Nothing {
            before
        } else {
            before.push(op)
        }
    }
}

/// The pieces that count end with the first that ends the direction: none
/// before it does, and where none does, all count.
pub proof fn lemma_live(chunks: Seq<Chunk>)
    ensures
        live(chunks) <= chunks.len(),
        forall|i: int| 0 <= i < live(chunks) - 1 ==> !(#[trigger] chunks[i]).fin,
        finished(chunks) ==> live(chunks) > 0 && chunks[live(chunks) - 1].fin,
        !finished(chunks) ==> live(chunks) == chunks.len() && forall|i: int|
            0 <= i < chunks.len() ==> !(#[trigger] chunks[i]).fin,
    decreases chunks.len(),
{
    if chunks.len() > 0 {
        let before = chunks.drop_last();
        lemma_live(before);
        assert forall|i: int| 0 <= i < before.len() implies before[i] == chunks[i] by {}
    }
}

/// What the driver forwards is what the engine delivered, message for message
/// and in the same order, up to the delivery that finishes the direction and
/// no further. The stream stays in the table, unfinished, until then.
pub proof fn lemma_forwarded_in_order(d: DriverState, id: u64, deliveries: Seq<Chunk>)
    requires
        d.streams.contains_key(id),
        !d.streams[id].recv_done,
    ensures
        forwarded(d, id, deliveries).len() == live(deliveries),
        forall|i: int|
            0 <= i < live(deliveries) ==> #[trigger] forwarded(d, id, deliveries)[i]
                == deliveries[i].message(),
        !finished(deliveries) ==> driver_after(d, id, deliveries).streams.contains_key(id)
            && !driver_after(d, id, deliveries).streams[id].recv_done,
        finished(deliveries) ==> !driver_after(d, id, deliveries).streams.contains_key(id)
            || driver_after(d, id, deliveries).streams[id].recv_done,
    decreases deliveries.len(),
{
    if deliveries.len() > 0 {
        let before = deliveries.drop_last();
        lemma_forwarded_in_order(d, id, before);
        lemma_live(before);
    }
}

/// What the reader observes of a sequence of chunks, of which only the last
/// may be terminal, is the bytes of every chunk, in order. The handle's
/// inbound direction has ended afterwards exactly when the last chunk was
/// terminal.
pub proof fn lemma_observed_in_order(s: StreamState, messages: Seq<MessageView>)
    requires
        !s.read_done,
        forall|i: int| 0 <= i < messages.len() - 1 ==> #[trigger] messages[i] is Bytes,
        messages.len() > 0 ==> messages.last() is Bytes || messages.last() is End,
    ensures
        observed(s, messages).len() == messages.len(),
        forall|i: int|
            0 <= i < messages.len() ==> #[trigger] observed(s, messages)[i] == (match messages[i] {
                MessageView::Bytes(data) => data,
                MessageView::End(data) => data,
                MessageView::Close => Seq::empty(),
            }),
        handle_after(s, messages).read_done == (messages.len() > 0 && messages.last() is End),
        handle_after(s, messages).id == s.id,
    decreases messages.len(),
{
    if messages.len() > 0 {
        let before = messages.drop_last();
        lemma_observed_in_order(s, before);
    }
}

/// A stream's chunks reach the application in the exact order in which the
/// engine delivered them, and the end of the stream is the last thing it sees.
///
/// Whatever the engine delivers on a stream of the table whose inbound
/// direction is open, the reader of a handle that has not seen the end observes
/// the bytes of each delivery up to the one that finishes the direction, one
/// chunk for one delivery and in the same order; that last chunk arrives as the
/// terminal one; and the handle knows that the direction has ended exactly
/// when the engine finished it.
pub proof fn lemma_chunks_arrive_in_order(
    d: DriverState,
    s: StreamState,
    id: u64,
    deliveries: Seq<Chunk>,
)
    requires
        d.streams.contains_key(id),
        !d.streams[id].recv_done,
        !s.read_done,
    ensures
        observed(s, forwarded(d, id, deliveries)).len() == live(deliveries),
        forall|i: int|
            0 <= i < live(deliveries) ==> #[trigger] observed(s, forwarded(d, id, deliveries))[i]
                == deliveries[i].data,
        forall|i: int|
            0 <= i < live(deliveries) - 1 ==> #[trigger] forwarded(d, id, deliveries)[i]
                is Bytes,
        finished(deliveries) ==> forwarded(d, id, deliveries).last() is End,
        handle_after(s, forwarded(d, id, deliveries)).read_done == finished(deliveries),
{
    let messages = forwarded(d, id, deliveries);
    lemma_live(deliveries);
    lemma_forwarded_in_order(d, id, deliveries);
    lemma_observed_in_order(s, messages);
}

/// What a handle enqueues is what the application wrote, message for message
/// and in the same order, up to the finish and no further.
pub proof fn lemma_enqueued_in_order(s: StreamState, writes: Seq<Chunk>)
    requires
        !s.write_done,
    ensures
        enqueued(s, writes).len() == live(writes),
        forall|i: int|
            0 <= i < live(writes) ==> #[trigger] enqueued(s, writes)[i] == writes[i].message(),
        handle_after_writes(s, writes).write_done == finished(writes),
    decreases writes.len(),
{
    if writes.len() > 0 {
        let before = writes.drop_last();
        lemma_enqueued_in_order(s, before);
        lemma_live(before);
    }
}

/// For a sequence of chunks of which only the last may be terminal, the driver
/// asks the engine for one send per chunk, in order, with the end-of-stream
/// flag on the terminal one.
pub proof fn lemma_asked_in_order(d: DriverState, id: u64, messages: Seq<MessageView>)
    requires
        d.streams.contains_key(id),
        !d.streams[id].send_done,
        forall|i: int| 0 <= i < messages.len() - 1 ==> #[trigger] messages[i] is Bytes,
        messages.len() > 0 ==> messages.last() is Bytes || messages.last() is End,
    ensures
        asked(d, id, messages).len() == messages.len(),
        forall|i: int|
            0 <= i < messages.len() ==> #[trigger] asked(d, id, messages)[i] == (match messages[i] {
                MessageView::Bytes(data) => StreamOpView::Send { id, data, fin: false },
                MessageView::End(data) => StreamOpView::Send { id, data, fin: true },
                MessageView::Close => StreamOpView::Shutdown { id },
            }),
        messages.len() == 0 || messages.last() is Bytes ==> driver_after_messages(
            d,
            id,
            messages,
        ).streams == d.streams,
    decreases messages.len(),
{
    if messages.len() > 0 {
        let before = messages.drop_last();
        assert forall|i: int| 0 <= i < before.len() implies before[i] == messages[i] by {}
        if before.len() > 0 {
            assert(before.last() == messages[before.len() - 1]);
        }
        lemma_asked_in_order(d, id, before);
    }
}

/// The bytes that the application writes on a stream go to the engine in the
/// order in which they were written, and the end of the stream goes with the
/// last of them.
///
/// Whatever the application writes on a handle whose outbound direction is
/// open, the driver asks the engine for one send per write up to the finish, in
/// the same order and with the same bytes, and the end-of-stream flag is set on
/// the finish alone.
pub proof fn lemma_writes_reach_engine_in_order(
    d: DriverState,
    s: StreamState,
    id: u64,
    writes: Seq<Chunk>,
)
    requires
        d.streams.contains_key(id),
        !d.streams[id].send_done,
        !s.write_done,
    ensures
        asked(d, id, enqueued(s, writes)).len() == live(writes),
        forall|i: int|
            0 <= i < live(writes) ==> #[trigger] asked(d, id, enqueued(s, writes))[i]
                == (StreamOpView::Send { id, data: writes[i].data, fin: writes[i].fin }),
{
    let messages = enqueued(s, writes);
    lemma_live(writes);
    lemma_enqueued_in_order(s, writes);
    lemma_asked_in_order(d, id, messages);
}

} // verus!
