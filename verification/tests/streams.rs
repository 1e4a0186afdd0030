use quic_driver::{Anchor, Incoming, Message, QuicStream};

#[test]
fn a_new_stream_has_both_directions_open() {
    let stream = QuicStream::new(7);
    assert_eq!(stream.id(), 7);
    assert!(!stream.is_read_done());
    assert!(!stream.is_write_done());
}

#[test]
fn writes_become_chunks_and_finish_becomes_the_terminal_chunk() {
    let mut stream = QuicStream::new(4);
    assert_eq!(stream.write(vec![1, 2]), Some(Message::Bytes(vec![1, 2])));
    assert_eq!(stream.write(vec![]), Some(Message::Bytes(vec![])));
    assert_eq!(stream.finish(vec![3]), Some(Message::End(vec![3])));
    assert!(stream.is_write_done());
    assert!(!stream.is_read_done());
}

#[test]
fn nothing_is_enqueued_behind_the_terminal_chunk() {
    let mut stream = QuicStream::new(4);
    assert_eq!(stream.finish(vec![]), Some(Message::End(vec![])));
    assert_eq!(stream.write(vec![9]), None);
    assert_eq!(stream.finish(vec![9]), None);
    assert!(stream.is_write_done());
}

#[test]
fn chunks_are_read_in_order_until_the_terminal_one() {
    let mut stream = QuicStream::new(1);
    assert_eq!(stream.read(Some(Message::Bytes(vec![1]))), Some(vec![1]));
    assert_eq!(stream.read(Some(Message::Bytes(vec![2, 3]))), Some(vec![2, 3]));
    assert!(!stream.is_read_done());
    assert_eq!(stream.read(Some(Message::End(vec![4]))), Some(vec![4]));
    assert!(stream.is_read_done());
    assert_eq!(stream.read(Some(Message::Bytes(vec![5]))), None);
    assert_eq!(stream.read(Some(Message::End(vec![6]))), None);
    assert_eq!(stream.read(None), None);
    assert!(!stream.is_write_done());
}

#[test]
fn a_closed_channel_ends_the_reading() {
    let mut stream = QuicStream::new(1);
    assert_eq!(stream.read(Some(Message::Bytes(vec![1]))), Some(vec![1]));
    assert_eq!(stream.read(None), None);
    assert!(stream.is_read_done());
    assert_eq!(stream.read(Some(Message::Bytes(vec![2]))), None);
}

#[test]
fn a_close_notification_ends_the_reading() {
    let mut stream = QuicStream::new(1);
    assert_eq!(stream.read(Some(Message::Close)), None);
    assert!(stream.is_read_done());
}

#[test]
fn giving_up_a_stream_sends_close_and_lets_go_of_the_anchor() {
    let mut anchor = Anchor::new();
    assert!(anchor.hold());
    assert!(anchor.hold());
    let first = QuicStream::new(1);
    let second = QuicStream::new(5);
    assert_eq!(first.close(&mut anchor), (Message::Close, false));
    assert_eq!(anchor.holders(), 1);
    assert_eq!(second.close(&mut anchor), (Message::Close, true));
    assert!(anchor.is_fired());
}

#[test]
fn incoming_passes_streams_through_until_the_channel_closes() {
    let mut incoming = Incoming::new();
    assert!(!incoming.is_ended());
    assert_eq!(incoming.poll(Some(QuicStream::new(1))), Some(QuicStream::new(1)));
    assert_eq!(incoming.poll(Some(QuicStream::new(5))), Some(QuicStream::new(5)));
    assert!(!incoming.is_ended());
    assert_eq!(incoming.poll::<QuicStream>(None), None);
    assert!(incoming.is_ended());
}

#[test]
fn an_ended_incoming_cannot_be_restarted() {
    let mut incoming = Incoming::new();
    assert_eq!(incoming.poll::<QuicStream>(None), None);
    assert_eq!(incoming.poll(Some(QuicStream::new(3))), None);
    assert!(incoming.is_ended());
    assert_eq!(incoming.poll::<QuicStream>(None), None);
}
