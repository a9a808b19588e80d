use libp2p::async_value::{Async, AsyncSink};
use libp2p::multistream_select::listener_select::{
    listener_select_proto, ListenerSelectFuture, SelectAction, SelectInput,
};
use libp2p::multistream_select::protocol::dialer::{self, Dialer};
use libp2p::multistream_select::protocol::listener::{self, Listener};
use libp2p::multistream_select::protocol::{
    encode_frame, multistream_protocol_bytes, DialerToListenerMessage, ListenerToDialerMessage,
    MultistreamSelectError, ReceiveAction, SendAction, SendInput,
};
use libp2p::multistream_select::ProtocolChoiceError;

type Name = Vec<u8>;
type Error = MultistreamSelectError<&'static str>;
type Connection = u32;

fn name(text: &str) -> Name {
    text.as_bytes().to_vec()
}

fn lines(text: &str) -> Vec<u8> {
    let mut v = text.as_bytes().to_vec();
    v.push(b'\n');
    v
}

fn dialer() -> Dialer<Connection> {
    let mut future = Dialer::new(5);
    let mut input: dialer::HandshakeInput<Connection, &'static str> =
        dialer::HandshakeInput::Start;
    let mut written: Vec<u8> = Vec::new();
    loop {
        match future.poll(input) {
            dialer::HandshakeAction::Write(d, bytes) => {
                let n = std::cmp::min(7, bytes.len());
                written.extend_from_slice(&bytes[..n]);
                input = dialer::HandshakeInput::Written(d, Ok(Async::Ready(n)));
            }
            dialer::HandshakeAction::Flush(d) => {
                input = dialer::HandshakeInput::Flushed(d, Ok(Async::Ready(())));
            }
            dialer::HandshakeAction::Return(Ok(Async::Ready(d))) => {
                assert_eq!(written, b"/multistream/1.0.0");
                return d;
            }
            dialer::HandshakeAction::Return(_) => panic!(),
        }
    }
}

fn listener() -> Listener<Connection> {
    let mut future = Listener::new(6);
    let mut input: listener::HandshakeInput<&'static str> = listener::HandshakeInput::Start;
    loop {
        match future.poll(input) {
            listener::HandshakeAction::Receive => {
                input = listener::HandshakeInput::Received(Ok(Async::Ready(Some(lines(
                    "/multistream/1.0.0",
                )))));
            }
            listener::HandshakeAction::Send(m) => {
                assert_eq!(m, b"/multistream/1.0.0");
                input = listener::HandshakeInput::Sent(Ok(Async::Ready(())));
            }
            listener::HandshakeAction::PollSend => panic!(),
            listener::HandshakeAction::Return(Ok(Async::Ready(l))) => return l,
            listener::HandshakeAction::Return(_) => panic!(),
        }
    }
}

fn dialer_send(
    d: &mut Dialer<Connection>,
    item: DialerToListenerMessage<Name>,
    at_once: usize,
) -> Result<Vec<u8>, Error> {
    let mut out = Vec::new();
    let mut action = d.start_send(item, SendInput::Start);
    loop {
        match action {
            SendAction::Write { item, bytes } => {
                let n = std::cmp::min(at_once, bytes.len());
                out.extend_from_slice(&bytes[..n]);
                action = d.start_send(item, SendInput::Written(Ok(Async::Ready(n))));
            }
            SendAction::Return(Ok(AsyncSink::Ready)) => return Ok(out),
            SendAction::Return(Ok(AsyncSink::NotReady(_))) => panic!(),
            SendAction::Return(Err(e)) => return Err(e),
        }
    }
}

fn listener_send(
    l: &mut Listener<Connection>,
    item: ListenerToDialerMessage<Name>,
    at_once: usize,
) -> Result<Vec<u8>, Error> {
    let mut out = Vec::new();
    let mut action = l.start_send(item, SendInput::Start);
    loop {
        match action {
            SendAction::Write { item, bytes } => {
                let n = std::cmp::min(at_once, bytes.len());
                out.extend_from_slice(&bytes[..n]);
                action = l.start_send(item, SendInput::Written(Ok(Async::Ready(n))));
            }
            SendAction::Return(Ok(AsyncSink::Ready)) => return Ok(out),
            SendAction::Return(Ok(AsyncSink::NotReady(_))) => panic!(),
            SendAction::Return(Err(e)) => return Err(e),
        }
    }
}

fn framed(mut payload: Vec<u8>) -> Vec<u8> {
    payload.push(b'\n');
    payload
}

fn dialer_receive(frame: Vec<u8>) -> Result<ListenerToDialerMessage<Name>, Error> {
    assert!(dialer::readable(&frame));
    let mut d = dialer();
    match d.poll::<&'static str>(Ok(Async::Ready(Some(lines("/multistream/1.0.0"))))) {
        ReceiveAction::ReadFrame => {}
        _ => panic!(),
    }
    match d.poll(Ok(Async::Ready(Some(frame)))) {
        ReceiveAction::Return(Ok(Async::Ready(Some(m)))) => Ok(m),
        ReceiveAction::Return(Err(e)) => Err(e),
        _ => panic!(),
    }
}

fn listener_receive(frame: Vec<u8>) -> Result<DialerToListenerMessage<Name>, Error> {
    match listener().poll(Ok(Async::Ready(Some(frame)))) {
        Ok(Async::Ready(Some(m))) => Ok(m),
        Err(e) => Err(e),
        _ => panic!(),
    }
}

#[test]
fn dialer_wrong_proto_name() {
    let mut d = dialer();
    let p = name("invalid_name");
    match dialer_send(&mut d, DialerToListenerMessage::ProtocolRequest { name: p }, 100) {
        Err(MultistreamSelectError::WrongProtocolName) => (),
        _ => panic!(),
    }
}

#[test]
fn listener_wrong_proto_name() {
    let mut l = listener();
    let proto_name = name("invalid-proto");
    match listener_send(&mut l, ListenerToDialerMessage::ProtocolAck { name: proto_name }, 100) {
        Err(MultistreamSelectError::WrongProtocolName) => (),
        _ => panic!(),
    }
}

#[test]
fn first_message_and_frames() {
    assert_eq!(multistream_protocol_bytes(), b"/multistream/1.0.0");
    assert_eq!(encode_frame(b"ls"), b"\x03ls\n");
    assert_eq!(encode_frame(b""), b"\x01\n");
    let long = vec![b'x'; 199];
    let frame = encode_frame(&long);
    assert_eq!(&frame[..2], &[0xc8, 0x01]);
    assert_eq!(frame.len(), 202);
    assert_eq!(dialer().into_inner(), 5);
    assert_eq!(listener().into_inner(), 6);
}

#[test]
fn dialer_messages_are_understood() {
    let mut d = dialer();
    for at_once in 1..5 {
        let out = dialer_send(
            &mut d,
            DialerToListenerMessage::ProtocolRequest { name: name("/hello/1") },
            at_once,
        )
        .unwrap();
        assert_eq!(out, b"/hello/1");
        assert_eq!(
            listener_receive(framed(out)),
            Ok(DialerToListenerMessage::ProtocolRequest { name: name("/hello/1") })
        );
        let out =
            dialer_send(&mut d, DialerToListenerMessage::ProtocolsListRequest, at_once).unwrap();
        assert_eq!(out, b"ls");
        assert_eq!(
            listener_receive(framed(out)),
            Ok(DialerToListenerMessage::ProtocolsListRequest)
        );
    }
}

#[test]
fn dialer_sending_waits_and_fails() {
    let mut d = dialer();
    let item: DialerToListenerMessage<Name> =
        DialerToListenerMessage::ProtocolRequest { name: name("/hello") };
    match d.start_send(item, SendInput::<&'static str>::Start) {
        SendAction::Write { item, bytes } => {
            assert_eq!(bytes, b"/hello");
            match d.start_send(item, SendInput::<&'static str>::Written(Ok(Async::NotReady))) {
                SendAction::Return(Ok(AsyncSink::NotReady(item))) => {
                    assert_eq!(
                        item,
                        DialerToListenerMessage::ProtocolRequest { name: name("/hello") }
                    );
                    assert_eq!(
                        d.start_send(item, SendInput::Written(Err("gone"))),
                        SendAction::Return(Err(MultistreamSelectError::IoError("gone")))
                    );
                }
                _ => panic!(),
            }
        }
        _ => panic!(),
    }
}

#[test]
fn listener_messages_are_understood() {
    let mut l = listener();
    for at_once in 1..6 {
        let ack = listener_send(
            &mut l,
            ListenerToDialerMessage::ProtocolAck { name: name("/hello/1") },
            at_once,
        )
        .unwrap();
        assert_eq!(ack, b"/hello/1");
        assert_eq!(
            dialer_receive(framed(ack)),
            Ok(ListenerToDialerMessage::ProtocolAck { name: name("/hello/1") })
        );
        let na = listener_send(&mut l, ListenerToDialerMessage::NotAvailable, at_once).unwrap();
        assert_eq!(na, b"na");
        assert_eq!(dialer_receive(framed(na)), Ok(ListenerToDialerMessage::NotAvailable));
        let list = vec![name("/a"), name("/bc")];
        let out = listener_send(
            &mut l,
            ListenerToDialerMessage::ProtocolsListResponse { list: list.clone() },
            at_once,
        )
        .unwrap();
        assert_eq!(out, b"\x02\n\x03/a\n\x04/bc");
        assert_eq!(
            dialer_receive(framed(out)),
            Ok(ListenerToDialerMessage::ProtocolsListResponse { list })
        );
    }
}

#[test]
fn list_of_47_protocols_is_misread() {
    let mut l = listener();
    let list: Vec<Name> = (0..47).map(|i| name(&format!("/p{}", i))).collect();
    let out =
        listener_send(&mut l, ListenerToDialerMessage::ProtocolsListResponse { list }, 1000)
            .unwrap();
    assert!(matches!(
        dialer_receive(framed(out)),
        Ok(ListenerToDialerMessage::ProtocolAck { .. })
    ));
}

#[test]
fn dialer_refuses_what_it_cannot_read() {
    assert_eq!(
        dialer_receive(vec![0xe9, 0x07, b'\n']),
        Err(MultistreamSelectError::VarintParseError("too many protocols"))
    );
    assert_eq!(
        dialer_receive(vec![]),
        Err(MultistreamSelectError::VarintParseError("not enough input bytes"))
    );
    assert_eq!(
        dialer_receive(vec![0xff; 11]),
        Err(MultistreamSelectError::VarintParseError("input bytes exceed maximum"))
    );
    assert_eq!(
        dialer_receive(b"\x01\n\x00".to_vec()),
        Err(MultistreamSelectError::UnknownMessage)
    );
    assert_eq!(
        dialer_receive(b"\x01\n\x03/a".to_vec()),
        Err(MultistreamSelectError::UnknownMessage)
    );
    assert_eq!(
        dialer_receive(b"\x01\n\x02/ab".to_vec()),
        Err(MultistreamSelectError::UnknownMessage)
    );
    assert!(!dialer::readable(&vec![3]));
}

#[test]
fn dialer_checks_the_handshake() {
    let mut d = dialer();
    assert_eq!(
        d.poll::<&'static str>(Ok(Async::Ready(Some(lines("/other"))))),
        ReceiveAction::Return(Err(MultistreamSelectError::FailedHandshake))
    );
    assert_eq!(
        d.poll::<&'static str>(Ok(Async::NotReady)),
        ReceiveAction::Return(Ok(Async::NotReady))
    );
    assert_eq!(
        d.poll::<&'static str>(Ok(Async::Ready(None))),
        ReceiveAction::Return(Ok(Async::Ready(None)))
    );
    assert_eq!(
        d.poll(Err("gone")),
        ReceiveAction::Return(Err(MultistreamSelectError::IoError("gone")))
    );
}

#[test]
fn dialer_handshake_waits_and_fails() {
    let mut future = Dialer::new(5);
    match future.poll::<&'static str>(dialer::HandshakeInput::Start) {
        dialer::HandshakeAction::Write(d, _) => {
            match future.poll(dialer::HandshakeInput::Written(d, Err("gone"))) {
                dialer::HandshakeAction::Return(Err(e)) => {
                    assert_eq!(e, MultistreamSelectError::IoError("gone"))
                }
                _ => panic!(),
            }
        }
        _ => panic!(),
    }
    let mut future = Dialer::new(5);
    match future.poll::<&'static str>(dialer::HandshakeInput::Start) {
        dialer::HandshakeAction::Write(d, _) => {
            match future
                .poll::<&'static str>(dialer::HandshakeInput::Written(d, Ok(Async::NotReady)))
            {
                dialer::HandshakeAction::Return(Ok(Async::NotReady)) => {}
                _ => panic!(),
            }
        }
        _ => panic!(),
    }
    assert!(future.dialer.is_some());
    // The handshake goes on where it was.
    let mut written: Vec<u8> = Vec::new();
    let mut flushes = 0;
    let mut busy = false;
    let mut input = dialer::HandshakeInput::Start;
    let d = loop {
        input = match future.poll::<&'static str>(input) {
            dialer::HandshakeAction::Write(d, bytes) => {
                busy = !busy;
                if busy {
                    let n = bytes.len().min(5);
                    written.extend_from_slice(&bytes[..n]);
                    dialer::HandshakeInput::Written(d, Ok(Async::Ready(n)))
                } else {
                    dialer::HandshakeInput::Written(d, Ok(Async::NotReady))
                }
            }
            dialer::HandshakeAction::Flush(d) => {
                flushes += 1;
                let flushed = if flushes < 3 { Async::NotReady } else { Async::Ready(()) };
                dialer::HandshakeInput::Flushed(d, Ok(flushed))
            }
            dialer::HandshakeAction::Return(Ok(Async::NotReady)) => dialer::HandshakeInput::Start,
            dialer::HandshakeAction::Return(Ok(Async::Ready(d))) => break d,
            dialer::HandshakeAction::Return(Err(_)) => panic!(),
        }
    };
    assert_eq!(written, b"/multistream/1.0.0".to_vec());
    assert_eq!(flushes, 3);
    assert_eq!(d.into_inner(), 5);
    assert!(future.dialer.is_none());
}

#[test]
fn listener_refuses_what_it_cannot_read() {
    assert_eq!(listener_receive(lines("hello")), Err(MultistreamSelectError::UnknownMessage));
    assert_eq!(listener_receive(name("/a")), Err(MultistreamSelectError::UnknownMessage));
    assert_eq!(listener_receive(vec![]), Err(MultistreamSelectError::UnknownMessage));
    let mut l = listener();
    assert_eq!(l.poll::<&'static str>(Ok(Async::Ready(None))), Ok(Async::Ready(None)));
    assert_eq!(l.poll::<&'static str>(Ok(Async::NotReady)), Ok(Async::NotReady));
    assert_eq!(l.poll(Err("gone")), Err(MultistreamSelectError::IoError("gone")));
}

#[test]
fn listener_checks_the_handshake() {
    for frame in vec![Some(lines("/other")), Some(name("/multistream/1.0.0")), None] {
        let mut future = Listener::new(6);
        assert_eq!(
            future.poll::<&'static str>(listener::HandshakeInput::Start),
            listener::HandshakeAction::Receive
        );
        assert_eq!(
            future.poll::<&'static str>(listener::HandshakeInput::Received(Ok(Async::Ready(
                frame
            )))),
            listener::HandshakeAction::Return(Err(MultistreamSelectError::FailedHandshake))
        );
    }
    let mut future = Listener::new(6);
    assert_eq!(
        future.poll::<&'static str>(listener::HandshakeInput::Received(Ok(Async::NotReady))),
        listener::HandshakeAction::Return(Ok(Async::NotReady))
    );
    assert_eq!(
        future.poll(listener::HandshakeInput::Received(Err("gone"))),
        listener::HandshakeAction::Return(Err(MultistreamSelectError::IoError("gone")))
    );
}

type Select = ListenerSelectFuture<Connection, Name>;

/// Lets the dialer say the lines, one after the other; collects what is written.
fn select(
    future: &mut Select,
    says: Vec<Option<Vec<u8>>>,
) -> (Vec<Vec<u8>>, Result<(Name, Connection, Vec<Name>), ProtocolChoiceError<&'static str>>) {
    let mut says = says.into_iter();
    let mut written: Vec<Vec<u8>> = Vec::new();
    let mut current: Vec<u8> = Vec::new();
    let mut input = SelectInput::Start;
    loop {
        match future.poll(input) {
            SelectAction::Receive => {
                input = SelectInput::Received(Ok(Async::Ready(says.next().unwrap())));
            }
            SelectAction::Send(m) => {
                written.push(m);
                input = SelectInput::Sent(Ok(Async::Ready(())));
            }
            SelectAction::PollSend => panic!(),
            SelectAction::Write(b) => {
                let n = std::cmp::min(3, b.len());
                current.extend_from_slice(&b[..n]);
                input = SelectInput::Written(Ok(Async::Ready(n)));
            }
            SelectAction::Flush => {
                written.push(current);
                current = Vec::new();
                input = SelectInput::Flushed(Ok(Async::Ready(())));
            }
            SelectAction::Return(Ok(Async::Ready(r))) => return (written, Ok(r)),
            SelectAction::Return(Ok(Async::NotReady)) => panic!(),
            SelectAction::Return(Err(e)) => return (written, Err(e)),
        }
    }
}

fn protocols() -> Vec<Name> {
    vec![name("/proto/1"), name("/proto/2")]
}

#[test]
fn supported_protocol_is_chosen() {
    let mut future = listener_select_proto(9, protocols());
    assert_eq!(future.connection(), Some(&mut 9));
    let (written, result) = select(
        &mut future,
        vec![
            Some(lines("/multistream/1.0.0")),
            Some(lines("/proto/3")),
            Some(lines("ls")),
            Some(lines("/proto/2")),
        ],
    );
    assert_eq!(
        written,
        vec![
            name("/multistream/1.0.0"),
            name("na"),
            b"\x02\n\x09/proto/1\n\x09/proto/2".to_vec(),
            name("/proto/2"),
        ]
    );
    assert_eq!(result, Ok((name("/proto/2"), 9, protocols())));
    assert_eq!(future.connection(), None);
}

#[test]
fn no_protocol_is_found_when_the_dialer_leaves() {
    let mut future = listener_select_proto(9, protocols());
    let (_, result) = select(&mut future, vec![Some(lines("/multistream/1.0.0")), None]);
    assert_eq!(result, Err(ProtocolChoiceError::NoProtocolFound));
}

#[test]
fn failed_handshake_ends_the_choice() {
    let mut future = listener_select_proto(9, protocols());
    let (written, result) = select(&mut future, vec![Some(lines("/other"))]);
    assert_eq!(written.len(), 0);
    assert_eq!(
        result,
        Err(ProtocolChoiceError::MultistreamSelectError(MultistreamSelectError::FailedHandshake))
    );
}

#[test]
fn choice_waits() {
    let mut future: Select = listener_select_proto(9, protocols());
    assert_eq!(future.poll::<&'static str>(SelectInput::Start), SelectAction::Receive);
    assert_eq!(
        future.poll::<&'static str>(SelectInput::Received(Ok(Async::NotReady))),
        SelectAction::Return(Ok(Async::NotReady))
    );
    assert_eq!(
        future.poll::<&'static str>(SelectInput::Received(Ok(Async::Ready(Some(lines(
            "/multistream/1.0.0"
        )))))),
        SelectAction::Send(name("/multistream/1.0.0"))
    );
    assert_eq!(
        future.poll::<&'static str>(SelectInput::Sent(Ok(Async::NotReady))),
        SelectAction::Return(Ok(Async::NotReady))
    );
    assert_eq!(future.poll::<&'static str>(SelectInput::Start), SelectAction::PollSend);
    assert_eq!(
        future.poll::<&'static str>(SelectInput::Sent(Ok(Async::Ready(())))),
        SelectAction::Receive
    );
    assert_eq!(
        future.poll(SelectInput::Received(Err("gone"))),
        SelectAction::Return(Err(ProtocolChoiceError::MultistreamSelectError(
            MultistreamSelectError::IoError("gone")
        )))
    );
}

#[test]
fn last_name_wins() {
    let mut future = listener_select_proto(9, protocols());
    let (written, result) = select(
        &mut future,
        vec![
            Some(lines("/multistream/1.0.0")),
            Some(lines("ls")),
            Some(lines("/a")),
            Some(lines("/proto")),
            Some(lines("ls")),
            Some(lines("/proto/1")),
        ],
    );
    let list = b"\x02\n\x09/proto/1\n\x09/proto/2".to_vec();
    assert_eq!(
        written,
        vec![
            name("/multistream/1.0.0"),
            list.clone(),
            name("na"),
            name("na"),
            list,
            name("/proto/1"),
        ]
    );
    assert_eq!(result, Ok((name("/proto/1"), 9, protocols())));
}
