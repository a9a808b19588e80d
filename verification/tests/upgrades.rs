use libp2p::address::{Multiaddr, MultiaddrSeq, PeerId, Protocol};
use libp2p::async_value::{Async, Either, Poll};
use libp2p::multistream_select::listener_select::SelectInput;
use libp2p::multistream_select::protocol::MultistreamSelectError;
use libp2p::multistream_select::ProtocolChoiceError;
use libp2p::muxing::{Shutdown, StreamMuxer};
use libp2p::either::{EitherOutbound, EitherOutput};
use libp2p::nodes::reporter::{Event, EventReporter};
use libp2p::nodes::task::TaskId;
use libp2p::nodes::ConnectedPoint;
use libp2p::swarm::NetworkBehaviourAction;
use libp2p::upgrade::apply::{
    apply, apply_inbound, apply_outbound, InboundAction, InboundInput, InboundUpgradeApply,
    NameWrap, OutboundAction, OutboundInput,
};
use libp2p::upgrade::{InboundUpgrade, OutboundUpgrade, UpgradeError, UpgradeInfo};
use std::cell::RefCell;
use std::sync::Arc;

fn addr(text: &str) -> Multiaddr {
    Multiaddr::from_components(vec![Protocol::Other(Arc::new(text.as_bytes().to_vec()))])
}

#[derive(Debug, PartialEq)]
struct Two;

impl UpgradeInfo for Two {
    type Info = Vec<u8>;

    fn protocol_info(&self) -> Vec<Vec<u8>> {
        vec![b"/one".to_vec(), b"/two".to_vec()]
    }
}

impl InboundUpgrade<u8> for Two {
    type Output = u64;
    type Error = &'static str;
    type Future = (u8, Vec<u8>);

    fn upgrade_inbound(self, socket: u8, info: Vec<u8>) -> (u8, Vec<u8>) {
        (socket, info)
    }
}

impl OutboundUpgrade<u8> for Two {
    type Output = u64;
    type Error = &'static str;
    type Future = (Vec<u8>, u8);

    fn upgrade_outbound(self, socket: u8, info: Vec<u8>) -> (Vec<u8>, u8) {
        (info, socket)
    }
}

fn line(text: &str) -> Vec<u8> {
    let mut v = text.as_bytes().to_vec();
    v.push(b'\n');
    v
}

fn run(
    a: &mut InboundUpgradeApply<u8, Two>,
    says: Vec<&str>,
    upgraded: Poll<u64, &'static str>,
) -> Poll<u64, UpgradeError<&'static str>> {
    let mut says = says.into_iter();
    let mut upgraded = Some(upgraded);
    let mut input = InboundInput::Start;
    loop {
        match a.poll(input) {
            InboundAction::Receive => {
                input = InboundInput::Select(SelectInput::Received(match says.next() {
                    Some(s) => Ok(Async::Ready(Some(line(s)))),
                    None => Ok(Async::NotReady),
                }));
            }
            InboundAction::Send(_) => {
                input = InboundInput::Select(SelectInput::Sent(Ok(Async::Ready(()))));
            }
            InboundAction::PollSend => panic!(),
            InboundAction::Write(b) => {
                input = InboundInput::Select(SelectInput::Written(Ok(Async::Ready(b.len()))));
            }
            InboundAction::Flush => {
                input = InboundInput::Select(SelectInput::Flushed(Ok(Async::Ready(()))));
            }
            InboundAction::PollUpgrade => {
                input = InboundInput::Upgraded(upgraded.take().unwrap_or(Ok(Async::NotReady)));
            }
            InboundAction::Return(r) => return r,
        }
    }
}

#[test]
fn incoming_connection_is_upgraded() {
    let mut a = apply_inbound(5, Two);
    assert_eq!(a.connection(), Some(&mut 5));
    assert_eq!(a.upgrade(), None);
    assert!(matches!(run(&mut a, vec![], Ok(Async::NotReady)), Ok(Async::NotReady)));
    assert!(matches!(
        run(&mut a, vec!["/multistream/1.0.0", "/three", "/two"], Ok(Async::NotReady)),
        Ok(Async::NotReady)
    ));
    assert_eq!(a.connection(), None);
    assert_eq!(a.upgrade(), Some(&mut (5, b"/two".to_vec())));
    assert!(matches!(run(&mut a, vec![], Ok(Async::Ready(9))), Ok(Async::Ready(9))));
}

#[test]
fn incoming_upgrade_fails() {
    let mut a = apply_inbound(5, Two);
    assert!(matches!(
        run(&mut a, vec!["/multistream/1.0.0", "/one"], Err("bad")),
        Err(UpgradeError::Apply("bad"))
    ));
    let mut a = apply_inbound(5, Two);
    assert!(matches!(
        run(&mut a, vec!["/other"], Err("bad")),
        Err(UpgradeError::Select(ProtocolChoiceError::MultistreamSelectError(
            MultistreamSelectError::FailedHandshake
        )))
    ));
}

fn names(list: Vec<NameWrap<Vec<u8>>>) -> Vec<Vec<u8>> {
    list.into_iter().map(|n| n.0).collect()
}

#[test]
fn outgoing_connection_is_upgraded() {
    let mut a = apply_outbound(5, Two, |c, list| (c, names(list)));
    assert_eq!(a.select(), Some(&mut (5, vec![b"/one".to_vec(), b"/two".to_vec()])));
    assert!(matches!(a.poll(OutboundInput::Start), OutboundAction::PollSelect));
    assert!(matches!(
        a.poll(OutboundInput::Selected(Ok(Async::NotReady))),
        OutboundAction::Return(Ok(Async::NotReady))
    ));
    assert!(matches!(
        a.poll(OutboundInput::Selected(Ok(Async::Ready((NameWrap(b"/one".to_vec()), 6))))),
        OutboundAction::PollUpgrade
    ));
    assert_eq!(a.upgrade(), Some(&mut (b"/one".to_vec(), 6)));
    assert!(matches!(a.poll(OutboundInput::Start), OutboundAction::PollUpgrade));
    assert!(matches!(
        a.poll(OutboundInput::Upgraded(Ok(Async::NotReady))),
        OutboundAction::Return(Ok(Async::NotReady))
    ));
    assert!(matches!(
        a.poll(OutboundInput::Upgraded(Ok(Async::Ready(8)))),
        OutboundAction::Return(Ok(Async::Ready(8)))
    ));
    assert_eq!(a.upgrade(), None);
}

#[test]
fn outgoing_upgrade_fails() {
    let mut a = apply_outbound(5, Two, |_, _| ());
    assert!(matches!(
        a.poll(OutboundInput::Selected(Err(ProtocolChoiceError::NoProtocolFound))),
        OutboundAction::Return(Err(UpgradeError::Select(ProtocolChoiceError::NoProtocolFound)))
    ));
    let mut a = apply_outbound(5, Two, |_, _| ());
    a.poll(OutboundInput::Selected(Ok(Async::Ready((NameWrap(b"/one".to_vec()), 6)))));
    assert!(matches!(
        a.poll(OutboundInput::Upgraded(Err("bad"))),
        OutboundAction::Return(Err(UpgradeError::Apply("bad")))
    ));
}

#[test]
fn direction_decides() {
    let dialer = ConnectedPoint::Dialer { address: addr("a") };
    let listener =
        ConnectedPoint::Listener { listen_addr: addr("a"), send_back_addr: addr("b") };
    assert!(!dialer.is_listener());
    assert!(listener.is_listener());
    match apply(5, Two, dialer.clone(), |_, _| 1u8) {
        Either::B(mut b) => assert_eq!(b.select(), Some(&mut 1)),
        Either::A(_) => panic!(),
    }
    match apply(5, Two, listener.clone(), |_, _| 1u8) {
        Either::A(mut a) => assert_eq!(a.connection(), Some(&mut 5)),
        Either::B(_) => panic!(),
    }
    assert_eq!(listener.clone(), listener);
}

#[test]
fn errors_of_upgrades_are_mapped() {
    let e: UpgradeError<u8> = UpgradeError::Apply(3);
    assert!(matches!(e.map_err(|x: u8| x as u16 + 1), UpgradeError::Apply(4)));
    let e: UpgradeError<u8> = UpgradeError::from(ProtocolChoiceError::NoProtocolFound);
    assert!(matches!(
        e.map_err(|x: u8| x as u16 + 1),
        UpgradeError::Select(ProtocolChoiceError::NoProtocolFound)
    ));
}

type Reported = Async<NetworkBehaviourAction<(), Event<void::Void>>>;

#[test]
fn last_event_is_reported_once() {
    let mut r: EventReporter<u8> = EventReporter::new();
    let first: Reported = r.poll();
    assert!(matches!(first, Async::NotReady));
    let p = PeerId::from_bytes(vec![1, 2]);
    r.inject_listener(addr("a"), MultiaddrSeq::singleton(addr("b")));
    let told: Reported = r.poll();
    assert!(matches!(
        told,
        Async::Ready(NetworkBehaviourAction::GenerateEvent(Event::Listener { addr: a, listens }))
            if a == addr("a") && listens == MultiaddrSeq::singleton(addr("b"))
    ));
    let point = ConnectedPoint::Dialer { address: addr("a") };
    r.inject_connected(p.clone(), point.clone());
    r.inject_disconnected(&p, point.clone());
    let told: Reported = r.poll();
    assert!(matches!(
        told,
        Async::Ready(NetworkBehaviourAction::GenerateEvent(Event::Disconnected { peer, endpoint }))
            if peer == p && endpoint == point
    ));
    r.inject_connected(p.clone(), point.clone());
    let told: Reported = r.poll();
    assert!(matches!(
        told,
        Async::Ready(NetworkBehaviourAction::GenerateEvent(Event::Connected { peer, .. }))
            if peer == p
    ));
    let told: Reported = r.poll();
    assert!(matches!(told, Async::NotReady));
    let e: Event<u8> = Event::NodeEvent { peer: p.clone(), event: 4 };
    assert!(matches!(e.clone(), Event::NodeEvent { peer, event: 4 } if peer == p));
}

#[test]
fn task_ids_are_ordered() {
    assert!(TaskId(1) < TaskId(2));
    assert_eq!(TaskId(3), TaskId(3));
}

struct Mux {
    id: u8,
    log: RefCell<Vec<String>>,
}

impl Mux {
    fn new(id: u8) -> Mux {
        Mux { id, log: RefCell::new(Vec::new()) }
    }

    fn note(&self, text: &str) {
        self.log.borrow_mut().push(text.to_string());
    }
}

impl StreamMuxer for Mux {
    type Substream = u8;
    type OutboundSubstream = u16;
    type Error = &'static str;

    fn owns(&self, _: u8) -> bool {
        true
    }

    fn owns_outbound(&self, _: u16) -> bool {
        true
    }

    fn poll_inbound(&self) -> Poll<Option<u8>, &'static str> {
        Ok(Async::Ready(Some(self.id)))
    }

    fn open_outbound(&self) -> u16 {
        self.id as u16
    }

    fn poll_outbound(&self, sub: &mut u16) -> Poll<Option<u8>, &'static str> {
        *sub += 1;
        Ok(Async::Ready(None))
    }

    fn destroy_outbound(&self, sub: u16) {
        self.note(&format!("destroy outbound {}", sub));
    }

    fn read_substream(&self, sub: &mut u8, buf: &mut [u8]) -> Poll<usize, &'static str> {
        buf[0] = *sub;
        Ok(Async::Ready(1))
    }

    fn write_substream(&self, _: &mut u8, buf: &[u8]) -> Poll<usize, &'static str> {
        Ok(Async::Ready(buf.len()))
    }

    fn flush_substream(&self, _: &mut u8) -> Poll<(), &'static str> {
        Err("cannot flush")
    }

    fn shutdown_substream(&self, _: &mut u8, kind: Shutdown) -> Poll<(), &'static str> {
        self.note(&format!("shutdown substream {:?}", kind));
        Ok(Async::Ready(()))
    }

    fn destroy_substream(&self, sub: u8) {
        self.note(&format!("destroy {}", sub));
    }

    fn shutdown(&self, kind: Shutdown) -> Poll<(), &'static str> {
        self.note(&format!("shutdown {:?}", kind));
        Ok(Async::NotReady)
    }

    fn flush_all(&self) -> Poll<(), &'static str> {
        Ok(Async::Ready(()))
    }
}

#[test]
fn either_muxer_uses_its_side() {
    let m: EitherOutput<Mux, Mux> = EitherOutput::B(Mux::new(7));
    assert_eq!(m.poll_inbound(), Ok(Async::Ready(Some(EitherOutput::B(7)))));
    let mut out = m.open_outbound();
    assert_eq!(out, EitherOutbound::B(7));
    assert_eq!(m.poll_outbound(&mut out), Ok(Async::Ready(None)));
    assert_eq!(out, EitherOutbound::B(8));
    m.destroy_outbound(out);
    let mut sub = EitherOutput::B(9);
    let mut buf = [0, 0];
    assert_eq!(m.read_substream(&mut sub, &mut buf), Ok(Async::Ready(1)));
    assert_eq!(buf, [9, 0]);
    assert_eq!(m.write_substream(&mut sub, &[1, 2, 3]), Ok(Async::Ready(3)));
    assert_eq!(m.flush_substream(&mut sub), Err("cannot flush"));
    assert_eq!(m.shutdown_substream(&mut sub, Shutdown::Outbound), Ok(Async::Ready(())));
    m.destroy_substream(sub);
    assert_eq!(m.shutdown(Shutdown::All), Ok(Async::NotReady));
    assert_eq!(m.flush_all(), Ok(Async::Ready(())));
    match m {
        EitherOutput::B(m) => assert_eq!(
            m.log.into_inner(),
            vec!["destroy outbound 8", "shutdown substream Outbound", "destroy 9", "shutdown All"]
        ),
        EitherOutput::A(_) => panic!(),
    }
    let m: EitherOutput<Mux, Mux> = EitherOutput::A(Mux::new(3));
    assert_eq!(m.poll_inbound(), Ok(Async::Ready(Some(EitherOutput::A(3)))));
    assert_eq!(m.open_outbound(), EitherOutbound::A(3));
}
