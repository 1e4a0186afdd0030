use quic_driver::{
    Anchor, Connecting, Connection, Driver, DriverAction, DriverEvent, EngineError,
    HandshakeAction, HandshakeEvent, Incoming, Inner, Message, Outcome, PumpAction, PumpEvent,
    QuicStream, Readable, RecvAction, RecvEvent, SendAction, SendEvent, StreamOp,
};
use std::collections::HashMap;

/// An engine and a transport that follow a script.
struct World {
    /// packets that the engine wants to send
    packets: Vec<Vec<u8>>,
    /// datagrams that wait at the transport
    inbound: Vec<Vec<u8>>,
    /// what the engine was fed
    fed: Vec<Vec<u8>>,
    /// what the transport was given
    wire: Vec<u8>,
    /// after how many fed datagrams the engine is established
    established_after: usize,
    closed: bool,
    /// stream data that the engine holds for the application
    readable: Vec<(u64, Vec<(Vec<u8>, bool)>)>,
    /// what the engine was asked to send on streams
    sent: Vec<(u64, Vec<u8>, bool)>,
    shutdowns: Vec<u64>,
    /// how many stream bytes the engine still takes
    window: usize,
    pumps: usize,
}

fn world() -> World {
    World {
        packets: Vec::new(),
        inbound: Vec::new(),
        fed: Vec::new(),
        wire: Vec::new(),
        established_after: 0,
        closed: false,
        readable: Vec::new(),
        sent: Vec::new(),
        shutdowns: Vec::new(),
        window: 1000,
        pumps: 0,
    }
}

fn perform_send(inner: &mut Inner, w: &mut World, action: SendAction) -> SendEvent {
    match action {
        SendAction::Write => {
            let pending = inner.pending();
            w.wire.extend_from_slice(pending);
            SendEvent::Written(pending.len())
        }
        SendAction::Produce => {
            if w.packets.is_empty() {
                SendEvent::Produced(Err(EngineError::Done))
            } else if w.packets[0].len() > inner.spare().len() {
                SendEvent::Produced(Err(EngineError::BufferTooShort))
            } else {
                let packet = w.packets.remove(0);
                inner.spare()[..packet.len()].copy_from_slice(&packet);
                SendEvent::Produced(Ok(packet.len()))
            }
        }
        SendAction::Close(_) => {
            w.closed = true;
            SendEvent::Closed
        }
        SendAction::Return(_) => unreachable!(),
    }
}

fn perform_recv(inner: &mut Inner, w: &mut World, action: RecvAction) -> RecvEvent {
    match action {
        RecvAction::Read => {
            if w.inbound.is_empty() {
                RecvEvent::Blocked
            } else {
                let datagram = w.inbound.remove(0);
                inner.recv_room()[..datagram.len()].copy_from_slice(&datagram);
                RecvEvent::Read(datagram.len())
            }
        }
        RecvAction::Feed(n) => {
            w.fed.push(inner.received(n).to_vec());
            RecvEvent::Fed(Ok(n))
        }
        RecvAction::Close(_) => {
            w.closed = true;
            RecvEvent::Closed
        }
        RecvAction::Return(_) => unreachable!(),
    }
}

fn run_send(inner: &mut Inner, w: &mut World) -> Outcome {
    let mut event = SendEvent::Start;
    loop {
        assert!(inner.is_well_formed() && inner.admits_send(&event));
        match inner.poll_send(event) {
            SendAction::Return(outcome) => return outcome,
            action => event = perform_send(inner, w, action),
        }
    }
}

fn run_complete(inner: &mut Inner, w: &mut World) -> Outcome {
    w.pumps += 1;
    let mut event = PumpEvent::Start;
    loop {
        assert!(inner.is_well_formed() && inner.admits(&event));
        event = match inner.poll_complete(event) {
            PumpAction::PollTimer => PumpEvent::Timer(false),
            PumpAction::NotifyTimeout => PumpEvent::Notified,
            PumpAction::AskTimeout => PumpEvent::Timeout(None),
            PumpAction::SetTimer(_) => PumpEvent::TimerSet,
            PumpAction::Recv(action) => PumpEvent::Recv(perform_recv(inner, w, action)),
            PumpAction::Send(action) => PumpEvent::Send(perform_send(inner, w, action)),
            PumpAction::AskClosed => PumpEvent::Closed(w.closed),
            PumpAction::Return(outcome) => return outcome,
        };
    }
}

/// One poll of the handshake future.
fn poll_handshake(connecting: &mut Connecting, w: &mut World) -> HandshakeAction {
    assert!(!connecting.is_ended());
    let mut event = HandshakeEvent::Start;
    loop {
        event = match connecting.poll(event) {
            HandshakeAction::Send => {
                HandshakeEvent::Sent(run_send(connecting.inner_mut().unwrap(), w))
            }
            HandshakeAction::AskStatus => HandshakeEvent::Status {
                established: if w.fed.len() >= w.established_after {
                    Some(Connection::new(String::from("trace"), b"hq".to_vec(), false))
                } else {
                    None
                },
                closed: w.closed,
            },
            HandshakeAction::Pump => {
                HandshakeEvent::Pumped(run_complete(connecting.inner_mut().unwrap(), w))
            }
            end => return end,
        };
    }
}

/// The driver's side of the channels, and the application's.
struct Wires {
    accepted: Option<Vec<QuicStream>>,
    to_handle: HashMap<u64, Vec<Message>>,
    to_driver: Vec<(u64, Message)>,
    signal: bool,
}

fn perform_op(driver: &mut Driver, w: &mut World, op: StreamOp) {
    match op {
        StreamOp::Send { id, data, fin } => {
            // the engine takes no more than its window allows
            let taken = data.len().min(w.window);
            w.window -= taken;
            let offered = data.len();
            w.sent.push((id, data[..taken].to_vec(), fin && taken == offered));
            let next = driver.on_sent(id, offered, Ok(taken));
            perform_op(driver, w, next);
        }
        StreamOp::Shutdown { id } => w.shutdowns.push(id),
        StreamOp::Nothing => {}
    }
}

/// One iteration of the driver; the answer is `Again` or `Return`.
fn iterate(driver: &mut Driver, anchor: &mut Anchor, w: &mut World, x: &mut Wires) -> DriverAction {
    let mut event = DriverEvent::Start;
    loop {
        event = match driver.poll(event) {
            DriverAction::Pump => DriverEvent::Pumped(run_complete(driver.inner_mut(), w)),
            DriverAction::Sweep => {
                let ids: Vec<u64> = w.readable.iter().map(|r| r.0).collect();
                for id in ids {
                    match driver.on_readable(id, anchor) {
                        Readable::Open { stream, accept } => {
                            x.to_handle.insert(id, Vec::new());
                            match (accept, x.accepted.as_mut()) {
                                (true, Some(queue)) => queue.push(stream),
                                _ => {
                                    let (message, fire) = stream.close(anchor);
                                    x.to_driver.push((id, message));
                                    x.signal = x.signal || fire;
                                    let op = driver.reject(id);
                                    perform_op(driver, w, op);
                                }
                            }
                        }
                        Readable::Pull => {
                            let position = w.readable.iter().position(|r| r.0 == id).unwrap();
                            let (_, chunks) = w.readable.remove(position);
                            for (data, fin) in chunks {
                                if let Some(message) = driver.on_chunk(id, data, fin) {
                                    x.to_handle.get_mut(&id).unwrap().push(message);
                                }
                            }
                        }
                        Readable::Shut => w.shutdowns.push(id),
                    }
                }
                DriverEvent::Swept
            }
            DriverAction::Drain => {
                let waiting: Vec<(u64, Message)> = x.to_driver.drain(..).collect();
                for (id, message) in waiting {
                    let op = driver.on_message(id, Some(message));
                    perform_op(driver, w, op);
                }
                DriverEvent::Drained
            }
            DriverAction::CheckSignal => DriverEvent::Signal(x.signal),
            DriverAction::AskClosed => DriverEvent::Closed(w.closed),
            end => return end,
        };
    }
}

fn establish(w: &mut World) -> (Driver, Connection, Incoming, Anchor) {
    let mut connecting = Connecting::new(Inner::new(64, 64));
    match poll_handshake(&mut connecting, w) {
        HandshakeAction::Established { driver, connection, incoming, anchor } => {
            (driver, connection, incoming, anchor)
        }
        other => panic!("not established: {:?}", other),
    }
}

#[test]
fn a_handshake_takes_as_many_polls_as_the_peer_needs() {
    let mut w = world();
    w.packets = vec![vec![1; 20]];
    w.established_after = 2;
    let mut connecting = Connecting::new(Inner::new(64, 64));

    // the first flight goes out before anything is received
    assert_eq!(poll_handshake(&mut connecting, &mut w), HandshakeAction::NotReady);
    assert_eq!(w.wire, vec![1; 20]);
    assert!(w.fed.is_empty());

    // the peer answers in two datagrams, the engine answers the first
    w.inbound = vec![vec![2; 10]];
    w.packets = vec![vec![3; 5]];
    assert_eq!(poll_handshake(&mut connecting, &mut w), HandshakeAction::NotReady);
    assert_eq!(w.fed, vec![vec![2; 10]]);
    assert_eq!(w.wire.len(), 25);

    // the second datagram establishes the engine: the poll that feeds it resolves
    w.inbound = vec![vec![4; 7]];
    match poll_handshake(&mut connecting, &mut w) {
        HandshakeAction::Established { connection, anchor, .. } => {
            assert_eq!(w.fed.len(), 2);
            assert_eq!(connection.trace_id(), "trace");
            assert_eq!(connection.alpn(), b"hq");
            assert_eq!(anchor.holders(), 2);
        }
        other => panic!("not established: {:?}", other),
    }
    assert!(connecting.is_ended());
}

#[test]
fn a_handshake_that_the_peer_abandons_fails_with_eof() {
    let mut w = world();
    w.established_after = 1;
    let mut connecting = Connecting::new(Inner::new(64, 64));
    assert_eq!(poll_handshake(&mut connecting, &mut w), HandshakeAction::NotReady);
    w.closed = true;
    assert_eq!(poll_handshake(&mut connecting, &mut w), HandshakeAction::UnexpectedEof);
    assert!(!connecting.is_ended());
}

#[test]
fn a_stream_carries_bytes_both_ways_and_the_driver_ends_with_the_handles() {
    let mut w = world();
    let (mut driver, connection, mut incoming, mut anchor) = establish(&mut w);
    let mut x = Wires {
        accepted: Some(Vec::new()),
        to_handle: HashMap::new(),
        to_driver: Vec::new(),
        signal: false,
    };

    // the peer opens stream 1 and sends a request in two pieces
    w.readable = vec![(1, vec![(b"GET ".to_vec(), false), (b"/".to_vec(), true)])];
    assert_eq!(iterate(&mut driver, &mut anchor, &mut w, &mut x), DriverAction::Again);
    let accepted = x.accepted.as_mut().unwrap().pop();
    let mut stream = incoming.poll(accepted).unwrap();
    assert_eq!(stream.id(), 1);
    assert_eq!(anchor.holders(), 3);

    // the next iteration pulls the bytes
    assert_eq!(iterate(&mut driver, &mut anchor, &mut w, &mut x), DriverAction::Again);
    let mut request = Vec::new();
    for message in x.to_handle.remove(&1).unwrap() {
        if let Some(chunk) = stream.read(Some(message)) {
            request.extend_from_slice(&chunk);
        }
    }
    assert_eq!(request, b"GET /");
    assert!(stream.is_read_done());

    // the application answers and finishes
    for message in [stream.write(b"200 ".to_vec()), stream.finish(b"OK".to_vec())] {
        x.to_driver.push((1, message.unwrap()));
    }
    assert_eq!(iterate(&mut driver, &mut anchor, &mut w, &mut x), DriverAction::Again);
    assert_eq!(
        w.sent,
        vec![(1, b"200 ".to_vec(), false), (1, b"OK".to_vec(), true)]
    );
    // finished in both directions: the stream has left the table
    assert!(!driver.tracks(1));
    assert!(w.shutdowns.is_empty());

    // the application lets go of everything
    drop(connection);
    assert!(!anchor.release());
    drop(incoming);
    x.accepted = None;
    assert!(!anchor.release());
    let (message, fire) = stream.close(&mut anchor);
    x.to_driver.push((1, message));
    x.signal = fire;
    assert!(fire);

    let pumps = w.pumps;
    assert_eq!(iterate(&mut driver, &mut anchor, &mut w, &mut x), DriverAction::Again);
    assert_eq!(w.pumps, pumps + 1);
    assert!(driver.is_closing());
    assert_eq!(
        iterate(&mut driver, &mut anchor, &mut w, &mut x),
        DriverAction::Return(Outcome::Ready)
    );
    // the last iteration did no I/O
    assert_eq!(w.pumps, pumps + 1);
    assert!(w.shutdowns.is_empty());
}

#[test]
fn peer_streams_are_shut_down_when_nobody_accepts() {
    let mut w = world();
    let (mut driver, _connection, incoming, mut anchor) = establish(&mut w);
    let mut x = Wires {
        accepted: Some(Vec::new()),
        to_handle: HashMap::new(),
        to_driver: Vec::new(),
        signal: false,
    };
    // the sequence of accepted streams is dropped before any stream arrives
    drop(incoming);
    x.accepted = None;
    assert!(!anchor.release());

    w.readable = vec![(1, vec![(vec![1], false)]), (5, vec![(vec![2], true)])];
    assert_eq!(iterate(&mut driver, &mut anchor, &mut w, &mut x), DriverAction::Again);
    assert_eq!(w.shutdowns, vec![1, 5]);
    assert!(!driver.tracks(1));
    assert!(!driver.tracks(5));
    assert_eq!(anchor.holders(), 1);
    assert!(!x.signal);

    // the engine no longer reports them; later ones fare the same
    w.readable = vec![(9, vec![(vec![3], false)])];
    assert_eq!(iterate(&mut driver, &mut anchor, &mut w, &mut x), DriverAction::Again);
    assert_eq!(w.shutdowns, vec![1, 5, 9]);
    assert!(!driver.tracks(9));
    assert!(w.sent.is_empty());
}

#[test]
fn a_closed_engine_ends_the_driver_whatever_the_handles_do() {
    let mut w = world();
    let (mut driver, _connection, _incoming, mut anchor) = establish(&mut w);
    let mut x = Wires {
        accepted: Some(Vec::new()),
        to_handle: HashMap::new(),
        to_driver: Vec::new(),
        signal: false,
    };
    // nothing to do: the task waits
    assert_eq!(
        iterate(&mut driver, &mut anchor, &mut w, &mut x),
        DriverAction::Return(Outcome::NotReady)
    );
    w.closed = true;
    assert_eq!(
        iterate(&mut driver, &mut anchor, &mut w, &mut x),
        DriverAction::Return(Outcome::Ready)
    );
    assert_eq!(anchor.holders(), 2);
}

/// One poll of the driver task: iterations until the task gives way or ends.
fn poll_driver(driver: &mut Driver, anchor: &mut Anchor, w: &mut World, x: &mut Wires) -> Outcome {
    loop {
        match iterate(driver, anchor, w, x) {
            DriverAction::Again => {}
            DriverAction::Return(outcome) => return outcome,
            other => panic!("an iteration ended with {:?}", other),
        }
    }
}

#[test]
fn an_idle_driver_waits_and_a_woken_one_works_until_it_is_idle_again() {
    let mut w = world();
    let (mut driver, _connection, mut incoming, mut anchor) = establish(&mut w);
    let mut x = Wires {
        accepted: Some(Vec::new()),
        to_handle: HashMap::new(),
        to_driver: Vec::new(),
        signal: false,
    };
    // the transport blocks, the engine has nothing to send, no handle was dropped
    let pumps = w.pumps;
    assert_eq!(poll_driver(&mut driver, &mut anchor, &mut w, &mut x), Outcome::NotReady);
    assert_eq!(w.pumps, pumps + 1);

    // a datagram wakes the task: it carries a new stream with its bytes
    w.inbound = vec![vec![9; 12]];
    w.readable = vec![(1, vec![(b"ping".to_vec(), true)])];
    let pumps = w.pumps;
    assert_eq!(poll_driver(&mut driver, &mut anchor, &mut w, &mut x), Outcome::NotReady);
    // opened in one iteration, pulled in the next, idle in the third
    assert_eq!(w.pumps, pumps + 3);
    let accepted = x.accepted.as_mut().unwrap().pop();
    let mut stream = incoming.poll(accepted).unwrap();
    let messages = x.to_handle.remove(&1).unwrap();
    assert_eq!(messages, vec![Message::End(b"ping".to_vec())]);
    for message in messages {
        assert_eq!(stream.read(Some(message)), Some(b"ping".to_vec()));
    }

    // the answer of the application wakes the task; the pump that follows the
    // drain flushes what the engine made of it
    x.to_driver.push((1, stream.finish(b"pong".to_vec()).unwrap()));
    let pumps = w.pumps;
    assert_eq!(poll_driver(&mut driver, &mut anchor, &mut w, &mut x), Outcome::NotReady);
    assert_eq!(w.pumps, pumps + 2);
    assert_eq!(w.sent, vec![(1, b"pong".to_vec(), true)]);
}

#[test]
fn a_stream_whose_bytes_the_engine_does_not_take_is_shut_down() {
    let mut w = world();
    let (mut driver, _connection, mut incoming, mut anchor) = establish(&mut w);
    let mut x = Wires {
        accepted: Some(Vec::new()),
        to_handle: HashMap::new(),
        to_driver: Vec::new(),
        signal: false,
    };
    w.readable = vec![(1, vec![(vec![1], false)])];
    assert_eq!(poll_driver(&mut driver, &mut anchor, &mut w, &mut x), Outcome::NotReady);
    let accepted = x.accepted.as_mut().unwrap().pop();
    let stream = incoming.poll(accepted).unwrap();

    w.window = 5;
    x.to_driver.push((1, stream.write(vec![7; 4]).unwrap()));
    x.to_driver.push((1, stream.write(vec![8; 4]).unwrap()));
    x.to_driver.push((1, stream.write(vec![9; 4]).unwrap()));
    assert_eq!(poll_driver(&mut driver, &mut anchor, &mut w, &mut x), Outcome::NotReady);
    // the second write did not fit: the stream is gone, the third write with it
    assert_eq!(w.sent, vec![(1, vec![7; 4], false), (1, vec![8; 1], false)]);
    assert_eq!(w.shutdowns, vec![1]);
    assert!(!driver.tracks(1));
}
