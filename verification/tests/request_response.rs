use libp2p::address::PeerId;
use libp2p::async_value::Async;
use libp2p::request_response::dynamic::{
    Dynamic, Event, HandlerEvent, PollAction, PollInput, RequestResponseEvent,
    RequestResponseMessage, ResponseChannel,
};
use libp2p::request_response::header::{
    u32_to_usize, Codec, Request, RequestHeader, Response, ResponseHeader,
};
use libp2p::request_response::peer_info::{Limit, PeerInfo};
use libp2p::request_response::peer_map::PeerMap;
use libp2p::swarm::NetworkBehaviourAction;
use libp2p::varint::UviError;

type Text = &'static str;
type Outer = RequestResponseEvent<Text, Text, u8, Text, Text>;
type Inner = RequestResponseEvent<Request<Text>, Response<Text>, u8, Text, Text>;
type Limited = Dynamic<u64, Outer>;
type Told = Async<NetworkBehaviourAction<Text, Event<Outer>>>;

fn peer(n: u8) -> PeerId {
    PeerId::from_bytes(vec![18, 32, n])
}

fn poll(d: &mut Limited, events: Vec<Inner>) -> Told {
    let mut events = events.into_iter();
    let mut input = PollInput::Start;
    loop {
        match d.poll::<Text>(input) {
            PollAction::PollBehaviour => {
                input = PollInput::Polled(match events.next() {
                    Some(e) => {
                        assert!(d.admits(&e));
                        Async::Ready(NetworkBehaviourAction::GenerateEvent(e))
                    }
                    None => Async::NotReady,
                });
            }
            PollAction::Return(r) => return r,
        }
    }
}

fn request(p: u8, rid: u64) -> Inner {
    RequestResponseEvent::Message {
        peer: peer(p),
        message: RequestResponseMessage::Request {
            request_id: rid,
            request: Request::new("ping"),
            channel: 77,
        },
    }
}

fn response(p: u8, rid: u64, credit: u16) -> Inner {
    let mut response = Response::new("pong");
    response.set_credit(credit);
    RequestResponseEvent::Message {
        peer: peer(p),
        message: RequestResponseMessage::Response { request_id: rid, response },
    }
}

fn channel(p: u8, rid: u64) -> ResponseChannel<()> {
    ResponseChannel { request_id: rid, peer: peer(p), sender: () }
}

fn is_resume(told: Told, p: u8) -> bool {
    match told {
        Async::Ready(NetworkBehaviourAction::GenerateEvent(Event::ResumeSending(q))) => {
            q == peer(p)
        }
        _ => false,
    }
}

fn is_too_many(told: Told, p: u8) -> bool {
    match told {
        Async::Ready(NetworkBehaviourAction::GenerateEvent(Event::TooManyInboundRequests(q))) => {
            q == peer(p)
        }
        _ => false,
    }
}

fn is_request(told: Told, rid: u64) -> bool {
    match told {
        Async::Ready(NetworkBehaviourAction::GenerateEvent(Event::Event(
            RequestResponseEvent::Message {
                message: RequestResponseMessage::Request { request_id, request, channel },
                ..
            },
        ))) => request_id == rid && request == "ping" && channel == 77,
        _ => false,
    }
}

fn is_response(told: Told, rid: u64) -> bool {
    match told {
        Async::Ready(NetworkBehaviourAction::GenerateEvent(Event::Event(
            RequestResponseEvent::Message {
                message: RequestResponseMessage::Response { request_id, response },
                ..
            },
        ))) => request_id == rid && response == "pong",
        _ => false,
    }
}

#[test]
fn one_request_until_credit_comes() {
    let mut d: Limited = Dynamic::new(5);
    assert_eq!(*d.behaviour(), 5);
    assert!(d.can_send(&peer(1)));
    assert_eq!(d.send_request(&peer(1), "a"), Ok(Request::new("a")));
    d.request_sent(&peer(1), 10);
    assert!(!d.can_send(&peer(1)));
    assert!(d.can_send(&peer(2)));
    assert_eq!(d.send_request(&peer(1), "b"), Err("b"));
    assert_eq!(d.send_request(&peer(1), "b"), Err("b"));
    assert!(is_response(poll(&mut d, vec![response(1, 10, 3)]), 10));
    assert!(is_resume(poll(&mut d, vec![]), 1));
    assert!(matches!(poll(&mut d, vec![]), Async::NotReady));
    for rid in 11..14 {
        assert!(d.send_request(&peer(1), "c").is_ok());
        d.request_sent(&peer(1), rid);
    }
    assert_eq!(d.send_request(&peer(1), "d"), Err("d"));
}

#[test]
fn no_resumption_without_credit_or_for_unknown_answers() {
    let mut d: Limited = Dynamic::new(5);
    assert!(d.send_request(&peer(1), "a").is_ok());
    d.request_sent(&peer(1), 10);
    assert!(is_response(poll(&mut d, vec![response(1, 99, 3)]), 99));
    assert!(matches!(poll(&mut d, vec![]), Async::NotReady));
    assert!(is_response(poll(&mut d, vec![response(1, 10, 0)]), 10));
    assert!(matches!(poll(&mut d, vec![]), Async::NotReady));
    assert!(!d.can_send(&peer(1)));
}

#[test]
fn failed_request_gives_the_budget_back() {
    let mut d: Limited = Dynamic::new(5);
    assert!(d.send_request(&peer(1), "a").is_ok());
    d.request_sent(&peer(1), 10);
    let failure =
        RequestResponseEvent::OutboundFailure { peer: peer(1), request_id: 10, error: "lost" };
    match poll(&mut d, vec![failure]) {
        Async::Ready(NetworkBehaviourAction::GenerateEvent(Event::Event(
            RequestResponseEvent::OutboundFailure { request_id, error, .. },
        ))) => {
            assert_eq!(request_id, 10);
            assert_eq!(error, "lost");
        }
        _ => panic!(),
    }
    assert!(is_resume(poll(&mut d, vec![]), 1));
    assert!(d.can_send(&peer(1)));
}

#[test]
fn too_many_requests_are_dropped() {
    let mut d: Limited = Dynamic::new(5);
    d.set_default_limit(2);
    d.inject_connected(&peer(1));
    assert!(is_request(poll(&mut d, vec![request(1, 1)]), 1));
    assert!(is_request(poll(&mut d, vec![request(1, 2)]), 2));
    assert!(matches!(poll(&mut d, vec![request(1, 3), request(1, 4)]), Async::NotReady));
    assert!(is_too_many(poll(&mut d, vec![]), 1));
    assert!(is_too_many(poll(&mut d, vec![]), 1));
    assert!(matches!(poll(&mut d, vec![]), Async::NotReady));
    assert!(is_request(poll(&mut d, vec![request(2, 5)]), 5));
}

#[test]
fn answers_carry_credit() {
    let mut d: Limited = Dynamic::new(5);
    d.set_default_limit(4);
    d.inject_connected(&peer(1));
    assert!(is_request(poll(&mut d, vec![request(1, 1)]), 1));
    assert!(is_request(poll(&mut d, vec![request(1, 2)]), 2));
    let first = d.send_response(&channel(1, 1), "x");
    assert_eq!(first.header(), &ResponseHeader { credit: 4 });
    assert_eq!(first.body(), &"x");
    assert_eq!(d.send_response(&channel(1, 2), "y").header().credit, 1);
    assert_eq!(d.send_response(&channel(1, 3), "z").header().credit, 0);
    assert_eq!(d.send_response(&channel(2, 1), "z").header().credit, 1);
    d.inject_event(&peer(1), &HandlerEvent::<()>::ResponseSent(1));
    d.inject_event(&peer(1), &HandlerEvent::Other(3));
    let failure =
        RequestResponseEvent::InboundFailure { peer: peer(1), request_id: 2, error: "late" };
    match poll(&mut d, vec![failure]) {
        Async::Ready(NetworkBehaviourAction::GenerateEvent(Event::Event(
            RequestResponseEvent::InboundFailure { request_id, error, .. },
        ))) => {
            assert_eq!(request_id, 2);
            assert_eq!(error, "late");
        }
        _ => panic!(),
    }
    for rid in 6..10 {
        assert!(is_request(poll(&mut d, vec![request(1, rid)]), rid));
    }
    assert!(matches!(poll(&mut d, vec![request(1, 10)]), Async::NotReady));
}

#[test]
fn credit_of_a_failed_answer_is_given_again() {
    let mut d: Limited = Dynamic::new(5);
    d.set_default_limit(4);
    d.inject_connected(&peer(1));
    assert!(is_request(poll(&mut d, vec![request(1, 1)]), 1));
    assert_eq!(d.send_response(&channel(1, 1), "x").header().credit, 4);
    let failure =
        RequestResponseEvent::InboundFailure { peer: peer(1), request_id: 1, error: "late" };
    poll(&mut d, vec![failure]);
    assert!(is_request(poll(&mut d, vec![request(1, 2)]), 2));
    assert_eq!(d.send_response(&channel(1, 2), "x").header().credit, 4);
}

#[test]
fn limits_of_single_peers() {
    let mut d: Limited = Dynamic::new(5);
    d.inject_connected(&peer(1));
    d.increase_receive_limit(&peer(1), 3);
    d.increase_receive_limit(&peer(1), 2);
    for rid in 1..4 {
        assert!(is_request(poll(&mut d, vec![request(1, rid)]), rid));
    }
    assert!(matches!(poll(&mut d, vec![request(1, 4)]), Async::NotReady));
    assert_eq!(d.send_response(&channel(1, 1), "x").header().credit, 3);
    d.inject_disconnected(&peer(1));
    d.inject_connected(&peer(1));
    assert!(is_too_many(poll(&mut d, vec![]), 1));
    for rid in 1..4 {
        assert!(is_request(poll(&mut d, vec![request(1, rid)]), rid));
    }
    d.inject_disconnected(&peer(1));
    d.remove_override(&peer(1));
    d.inject_connected(&peer(1));
    assert!(is_request(poll(&mut d, vec![request(1, 1)]), 1));
    assert!(matches!(poll(&mut d, vec![request(1, 2)]), Async::NotReady));
}

#[test]
fn other_actions_pass_through() {
    let mut d: Limited = Dynamic::new(5);
    assert!(matches!(d.poll::<Text>(PollInput::Start), PollAction::PollBehaviour));
    match d.poll::<Text>(PollInput::Polled(Async::Ready(NetworkBehaviourAction::Other("dial")))) {
        PollAction::Return(Async::Ready(NetworkBehaviourAction::Other(a))) => {
            assert_eq!(a, "dial")
        }
        _ => panic!(),
    }
}

#[test]
fn many_waiting_events_come_in_order() {
    let mut d: Limited = Dynamic::new(5);
    for p in 0..200 {
        d.inject_connected(&peer(p));
        assert!(is_request(poll(&mut d, vec![request(p, 1)]), 1));
    }
    let excess = (0..200).map(|p| request(p, 2)).collect();
    assert!(matches!(poll(&mut d, excess), Async::NotReady));
    for p in 0..200 {
        assert!(is_too_many(poll(&mut d, vec![]), p));
    }
    assert!(matches!(poll(&mut d, vec![]), Async::NotReady));
}

#[test]
fn credit_that_is_too_large_is_not_admitted() {
    let mut d: Limited = Dynamic::new(5);
    assert!(d.send_request(&peer(1), "a").is_ok());
    d.request_sent(&peer(1), 1);
    assert!(is_response(poll(&mut d, vec![response(1, 1, u16::MAX)]), 1));
    assert!(is_resume(poll(&mut d, vec![]), 1));
    assert!(d.send_request(&peer(1), "a").is_ok());
    d.request_sent(&peer(1), 2);
    assert!(d.admits(&response(1, 2, 1)));
    assert!(!d.admits(&response(1, 2, 2)));
    assert!(d.admits(&response(1, 3, 2)));
}

#[test]
fn information_of_a_peer() {
    let mut info = PeerInfo::new(Limit { max_recv: 3 });
    assert_eq!(info.limit(), Limit { max_recv: 3 });
    assert_eq!((info.rem_send(), info.rem_recv()), (1, 3));
    info.charge();
    info.sent(7);
    assert!(info.awaits(7));
    assert!(!info.awaits(8));
    assert_eq!(info.rem_send(), 0);
    info.credit(7, 5);
    assert!(!info.awaits(7));
    assert_eq!(info.rem_send(), 5);
    info.receive(9);
    assert_eq!(info.rem_recv(), 2);
    assert_eq!(info.answer(9), Some(3));
    assert_eq!(info.answer(10), None);
    info.complete(9);
    assert_eq!(info.rem_recv(), 3);
}

#[test]
fn maps_by_peer() {
    let mut map: PeerMap<u8> = PeerMap::new();
    assert!(!map.contains_key(&peer(1)));
    map.insert(peer(1), 10);
    map.insert(peer(2), 20);
    map.insert(peer(1), 11);
    assert_eq!(map.get(&peer(1)), Some(&11));
    *map.get_mut(&peer(2)).unwrap() = 21;
    assert_eq!(map.remove(&peer(2)), Some(21));
    assert_eq!(map.remove(&peer(2)), None);
    assert_eq!(map.get(&peer(3)), None);
}

#[test]
fn messages() {
    let r = Request::new(5u8);
    assert_eq!(r.clone(), r);
    assert_eq!(r.header(), &RequestHeader);
    assert_eq!(r.body(), &5);
    assert_eq!(r.into_body(), 5);
    assert_eq!(Request::new(6u8).into_parts(), (RequestHeader, 6));
    let mut s = Response::new(7u8);
    assert_eq!(s.header().credit, 0);
    assert_eq!(s.set_credit(9).header().credit, 9);
    assert_eq!(s.clone(), s);
    assert_eq!(s.into_parts(), (ResponseHeader { credit: 9 }, 7));
    assert_eq!(Response::new(8u8).into_body(), 8);
    assert_eq!(u32_to_usize(u32::MAX), 4294967295);
}

#[test]
fn headers_are_read_back() {
    let mut codec = Codec::new(1u8);
    let header: Vec<u8> = (0..200).map(|i| i as u8).collect();
    let out = codec.write_header(header.clone());
    assert_eq!(&out[..2], &[0xc8, 0x01]);
    assert_eq!(&out[2..], &header[..]);
    assert_eq!(codec.buffer(), &header);
    let mut other = Codec::new(2u8);
    assert_eq!(other.read_header(&out), Ok(200));
    assert_eq!(other.buffer(), &vec![0; 200]);
    other.buffer().copy_from_slice(&out[2..]);
    assert_eq!(other.buffer(), &header);
    *other.inner() = 3;
    assert_eq!(*other.clone().inner(), 3);
    assert_eq!(codec.write_header(vec![]), vec![0]);
}

#[test]
fn lengths_that_cannot_be_read() {
    let mut codec = Codec::new(1u8);
    assert_eq!(codec.read_header(&[]), Err(UviError::Insufficient));
    assert_eq!(codec.read_header(&[0x80]), Err(UviError::Insufficient));
    assert_eq!(codec.read_header(&[0xff; 9]), Err(UviError::Overflow));
}
