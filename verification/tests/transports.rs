use libp2p::address::{Multiaddr, MultiaddrSeq, Protocol};
use libp2p::async_value::{Async, Either};
use libp2p::builder::Transport as Built;
use libp2p::common_transport::CommonTransport;
use libp2p::either::{EitherError, EitherFuture, EitherListenStream, EitherOutput};
use libp2p::multistream_select::ProtocolChoiceError;
use libp2p::timeout::{TimerError, TransportTimeout};
use libp2p::transport::and_then::AndThen;
use libp2p::transport::buffered::{Buffered, BufferedTransport};
use libp2p::transport::denied::Denied;
use libp2p::transport::error::{Cause, Error};
use libp2p::transport::map_err::MapErr;
use libp2p::transport::or::Or;
use libp2p::transport::refused::Refused;
use libp2p::transport::upgrade::Upgrade;
use libp2p::transport::{Dialer, DialerExt, Endpoint, Listener, ListenerExt, Transport};
use libp2p::upgrade::{InboundUpgrade, OutboundUpgrade, UpgradeError, UpgradeInfo};
use std::sync::Arc;
use std::time::Duration;

fn addr(text: &str) -> Multiaddr {
    Multiaddr::from_components(vec![Protocol::Other(Arc::new(text.as_bytes().to_vec()))])
}

/// Supports the address of its own name.
#[derive(Clone, Debug, PartialEq)]
struct Leaf(&'static str);

impl Listener for Leaf {
    type Output = u8;
    type Error = &'static str;
    type Inbound = &'static str;
    type Upgrade = u16;

    fn listen_on(self, a: Multiaddr) -> Result<(&'static str, Multiaddr), (Self, Multiaddr)> {
        if a == addr(self.0) {
            Ok((self.0, addr("listening")))
        } else {
            Err((self, a))
        }
    }

    fn nat_traversal(&self, server: &Multiaddr, observed: &Multiaddr) -> Option<Multiaddr> {
        if *server == addr(self.0) {
            Some(observed.clone())
        } else {
            None
        }
    }
}

impl Dialer for Leaf {
    type Output = u8;
    type Error = &'static str;
    type Outbound = u32;

    fn dial(self, a: Multiaddr) -> Result<u32, (Self, Multiaddr)> {
        if a == addr(self.0) {
            Ok(32)
        } else {
            Err((self, a))
        }
    }
}

#[derive(Clone, Debug, PartialEq)]
struct Slow(&'static str);

impl Transport for Slow {
    type Output = u8;
    type Error = &'static str;
    type ListenOn = u64;
    type Listener = &'static str;
    type ListenerUpgrade = u16;
    type Dial = u32;

    fn listen_on(self, a: Multiaddr) -> Result<u64, (Self, Multiaddr)> {
        if a == addr(self.0) {
            Ok(64)
        } else {
            Err((self, a))
        }
    }

    fn dial(self, a: Multiaddr) -> Result<u32, (Self, Multiaddr)> {
        if a == addr(self.0) {
            Ok(32)
        } else {
            Err((self, a))
        }
    }

    fn nat_traversal(&self, _: &Multiaddr, observed: &Multiaddr) -> Option<Multiaddr> {
        Some(observed.clone())
    }
}

#[derive(Clone, Debug, PartialEq)]
struct Hello;

impl UpgradeInfo for Hello {
    type Info = Vec<u8>;

    fn protocol_info(&self) -> Vec<Vec<u8>> {
        vec![b"/hello".to_vec()]
    }
}

impl InboundUpgrade<u8> for Hello {
    type Output = String;
    type Error = ();
    type Future = String;

    fn upgrade_inbound(self, socket: u8, info: Vec<u8>) -> String {
        format!("in {} {}", socket, String::from_utf8(info).unwrap())
    }
}

impl OutboundUpgrade<u8> for Hello {
    type Output = String;
    type Error = ();
    type Future = String;

    fn upgrade_outbound(self, socket: u8, info: Vec<u8>) -> String {
        format!("out {} {}", socket, String::from_utf8(info).unwrap())
    }
}

type NoError = Result<Async<()>, &'static str>;

#[test]
fn or_takes_the_first_that_supports_the_address() {
    let both = Leaf("a").or_dialer(Leaf("b"));
    assert_eq!(both.clone().dial(addr("a")).ok(), Some(EitherFuture::A(32)));
    assert_eq!(both.clone().dial(addr("b")).ok(), Some(EitherFuture::B(32)));
    match both.clone().dial(addr("c")) {
        Err((Or(a, b), back)) => {
            assert_eq!((a, b), (Leaf("a"), Leaf("b")));
            assert_eq!(back, addr("c"));
        }
        Ok(_) => panic!(),
    }
    let both = Leaf("a").or_listener(Leaf("b"));
    assert_eq!(
        both.clone().listen_on(addr("b")).ok(),
        Some((EitherListenStream::B("b"), addr("listening")))
    );
    assert_eq!(
        both.clone().listen_on(addr("a")).ok(),
        Some((EitherListenStream::A("a"), addr("listening")))
    );
    assert!(both.clone().listen_on(addr("c")).is_err());
    assert_eq!(both.nat_traversal(&addr("b"), &addr("x")), Some(addr("x")));
    assert_eq!(both.nat_traversal(&addr("a"), &addr("x")), Some(addr("x")));
    assert_eq!(both.nat_traversal(&addr("c"), &addr("x")), None);
}

#[test]
fn either_streams_and_futures() {
    let mut s: EitherListenStream<u8, u8> = EitherListenStream::A(1);
    let polled: Either<
        Result<Async<Option<(u16, Multiaddr)>>, &'static str>,
        Result<Async<Option<(u32, Multiaddr)>>, &'static str>,
    > = Either::A(Ok(Async::Ready(Some((16, addr("x"))))));
    assert_eq!(s.poll(polled), Ok(Async::Ready(Some((EitherFuture::A(16), addr("x"))))));
    let mut f: EitherFuture<u8, u8> = EitherFuture::B(1);
    assert_eq!(
        f.poll::<u16, u32, &'static str, u8>(Either::B(Err(3))),
        Err(EitherError::B(3))
    );
    assert_eq!(
        f.poll::<u16, u32, &'static str, u8>(Either::B(Ok(Async::Ready(4)))),
        Ok(Async::Ready(EitherOutput::B(4)))
    );
    let mut f: EitherFuture<u8, u8> = EitherFuture::A(1);
    assert_eq!(
        f.poll::<u16, u32, &'static str, u8>(Either::A(Err("gone"))),
        Err(EitherError::A("gone"))
    );
    assert_eq!(
        f.poll::<u16, u32, &'static str, u8>(Either::A(Ok(Async::NotReady))),
        Ok(Async::NotReady)
    );
}

#[test]
fn map_of_outputs() {
    let d = Leaf("a").map_dialer(|o: u8, a: Multiaddr| (o as u32 + 1, a));
    assert!(d.clone().dial(addr("b")).is_err());
    let mut f = match d.dial(addr("a")) {
        Ok(f) => f,
        Err(_) => panic!(),
    };
    assert_eq!(f.poll::<u8, &'static str>(Ok(Async::NotReady)), Ok(Async::NotReady));
    assert_eq!(f.poll::<u8, _>(Err("gone")), Err("gone"));
    let d = Leaf("a").map_dialer(|o: u8, a: Multiaddr| (o as u32 + 1, a));
    let mut f = match d.dial(addr("a")) {
        Ok(f) => f,
        Err(_) => panic!(),
    };
    assert_eq!(
        f.poll::<u8, &'static str>(Ok(Async::Ready(7))),
        Ok(Async::Ready((8, addr("a"))))
    );
    let l = Leaf("a").map_listener(|o: u8, a: Multiaddr| (o as u32 + 2, a));
    assert_eq!(l.nat_traversal(&addr("a"), &addr("y")), Some(addr("y")));
    let (mut s, at) = match l.listen_on(addr("a")) {
        Ok(x) => x,
        Err(_) => panic!(),
    };
    assert_eq!(at, addr("listening"));
    match s.poll::<u16, &'static str>(Ok(Async::Ready(Some((16, addr("from")))))) {
        Ok(Async::Ready(Some((mut f, a)))) => {
            assert_eq!(a, addr("from"));
            assert_eq!(f.inner, 16);
            assert_eq!(
                f.poll::<u8, &'static str>(Ok(Async::Ready(5))),
                Ok(Async::Ready((7, addr("from"))))
            );
        }
        _ => panic!(),
    }
    assert!(matches!(s.poll::<u16, &'static str>(Ok(Async::Ready(None))), Ok(Async::Ready(None))));
}

#[test]
fn map_of_errors() {
    let d = MapErr::new(Leaf("a"), |e: &'static str| e.len());
    let mut f = match d.dial(addr("a")) {
        Ok(f) => f,
        Err(_) => panic!(),
    };
    assert_eq!(f.poll::<u8, &'static str>(Ok(Async::Ready(1))), Ok(Async::Ready(1)));
    assert_eq!(f.poll::<u8, _>(Err("four")), Err(4));
    let l = MapErr::new(Leaf("a"), |e: &'static str| e.len());
    let (mut s, _) = match l.clone().listen_on(addr("a")) {
        Ok(x) => x,
        Err(_) => panic!(),
    };
    match s.poll::<u16, &'static str>(Ok(Async::Ready(Some((16, addr("from")))))) {
        Ok(Async::Ready(Some((mut f, _)))) => {
            assert_eq!(f.poll::<u8, &'static str>(Ok(Async::NotReady)), Ok(Async::NotReady));
            assert_eq!(f.poll::<u8, _>(Err("three")), Err(5));
        }
        _ => panic!(),
    }
    match s.poll::<u16, &'static str>(Err("gone")) {
        Err(e) => assert_eq!(e, "gone"),
        Ok(_) => panic!(),
    }
    match l.listen_on(addr("b")) {
        Err((l, a)) => {
            assert_eq!(l.transport, Leaf("a"));
            assert_eq!(a, addr("b"));
        }
        Ok(_) => panic!(),
    }
}

#[test]
fn map_of_errors_of_one_side() {
    let d = Leaf("a").map_dialer_err(|e: &'static str, a: Multiaddr| (e.len(), a));
    let (s, _) = d.clone().listen_on(addr("a")).ok().unwrap();
    let (plain, _) = Leaf("a").listen_on(addr("a")).ok().unwrap();
    assert_eq!(s, plain);
    let mut f = match d.dial(addr("a")) {
        Ok(f) => f,
        Err(_) => panic!(),
    };
    assert_eq!(f.poll::<u8, &'static str>(Ok(Async::Ready(1))), Ok(Async::Ready(1)));
    assert_eq!(f.poll::<u8, _>(Err("four")), Err((4, addr("a"))));
    assert!(f.args.is_none());
    let l = Leaf("a").map_listener_err(|e: &'static str, a: Multiaddr| (e.len(), a));
    assert!(l.clone().dial(addr("a")).is_ok());
    let (mut s, _) = match l.clone().listen_on(addr("a")) {
        Ok(x) => x,
        Err(_) => panic!(),
    };
    match s.poll::<u16, &'static str>(Ok(Async::Ready(Some((16, addr("from")))))) {
        Ok(Async::Ready(Some((mut f, a)))) => {
            assert_eq!(a, addr("from"));
            assert_eq!(f.inner, 16);
            assert_eq!(f.poll::<u8, &'static str>(Ok(Async::NotReady)), Ok(Async::NotReady));
            assert_eq!(f.poll::<u8, _>(Err("three")), Err((5, addr("from"))));
        }
        _ => panic!(),
    }
    match s.poll::<u16, &'static str>(Err("gone")) {
        Err(e) => assert_eq!(e, "gone"),
        Ok(_) => panic!(),
    }
    match l.listen_on(addr("b")) {
        Err((l, a)) => {
            assert_eq!(l.inner, Leaf("a"));
            assert_eq!(a, addr("b"));
        }
        Ok(_) => panic!(),
    }
}

#[test]
fn and_then_goes_on_after_success() {
    let d = Leaf("a").dialer_and_then(|o: u8, a: Multiaddr| (o, a));
    let mut f = match d.dial(addr("a")) {
        Ok(f) => f,
        Err(_) => panic!(),
    };
    let none: Result<Async<bool>, &'static str> = Ok(Async::NotReady);
    assert_eq!(f.poll::<u8, bool, &'static str>(Either::A(Ok(Async::NotReady))), none);
    assert_eq!(f.poll::<u8, bool, &'static str>(Either::A(Ok(Async::Ready(3)))), none);
    assert_eq!(f.inner, Either::B((3, addr("a"))));
    assert_eq!(
        f.poll::<u8, bool, &'static str>(Either::B(Ok(Async::Ready(true)))),
        Ok(Async::Ready(true))
    );
    let t = AndThen::new(Leaf("a"), |o: u8, e: Endpoint, a: Multiaddr| (o, e, a));
    let mut f = match t.clone().dial(addr("a")) {
        Ok(f) => f,
        Err(_) => panic!(),
    };
    assert_eq!(f.poll::<u8, bool, &'static str>(Either::A(Ok(Async::Ready(3)))), none);
    assert_eq!(f.inner, Either::B((3, Endpoint::Dialer, addr("a"))));
    let (mut s, _) = match t.listen_on(addr("a")) {
        Ok(x) => x,
        Err(_) => panic!(),
    };
    match s.poll::<u16, &'static str>(Ok(Async::Ready(Some((16, addr("from")))))) {
        Ok(Async::Ready(Some((mut f, _)))) => {
            assert_eq!(f.poll::<u8, bool, &'static str>(Either::A(Ok(Async::Ready(4)))), none);
            assert_eq!(f.inner, Either::B((4, Endpoint::Listener, addr("from"))));
        }
        _ => panic!(),
    }
    let l = Leaf("a").listener_and_then(|o: u8, a: Multiaddr| (o, a));
    let (mut s, _) = match l.listen_on(addr("a")) {
        Ok(x) => x,
        Err(_) => panic!(),
    };
    match s.poll::<u16, &'static str>(Ok(Async::Ready(Some((16, addr("from")))))) {
        Ok(Async::Ready(Some((mut f, _)))) => {
            assert_eq!(f.poll::<u8, bool, _>(Either::A(Err("gone"))), Err("gone"));
        }
        _ => panic!(),
    }
}

#[test]
fn or_else_goes_on_after_failure() {
    let d = Leaf("a").dialer_or_else(|e: &'static str, a: Multiaddr| (e, a));
    let mut f = match d.dial(addr("a")) {
        Ok(f) => f,
        Err(_) => panic!(),
    };
    let none: Result<Async<u8>, bool> = Ok(Async::NotReady);
    assert_eq!(f.poll::<u8, &'static str, bool>(Either::A(Err("gone"))), none);
    assert_eq!(f.inner, Either::B(("gone", addr("a"))));
    assert_eq!(f.poll::<u8, &'static str, bool>(Either::B(Err(true))), Err(true));
    let l = Leaf("a").listener_or_else(|e: &'static str, a: Multiaddr| (e, a));
    let (mut s, _) = match l.listen_on(addr("a")) {
        Ok(x) => x,
        Err(_) => panic!(),
    };
    match s.poll::<u16, &'static str>(Ok(Async::Ready(Some((16, addr("from")))))) {
        Ok(Async::Ready(Some((mut f, _)))) => {
            assert_eq!(
                f.poll::<u8, &'static str, bool>(Either::A(Ok(Async::Ready(9)))),
                Ok(Async::Ready(9))
            );
        }
        _ => panic!(),
    }
}

#[test]
fn buffered_transport_buffers_outputs() {
    let t = BufferedTransport::new(Leaf("a"), 64);
    let mut f = match t.clone().dial(addr("a")) {
        Ok(f) => f,
        Err(_) => panic!(),
    };
    assert_eq!(
        f.poll::<u8, &'static str>(Ok(Async::Ready(5))),
        Ok(Async::Ready(Buffered { output: 5, read_capacity: 64, write_capacity: 64 }))
    );
    let (mut s, _) = match t.clone().listen_on(addr("a")) {
        Ok(x) => x,
        Err(_) => panic!(),
    };
    match s.poll::<u16, &'static str>(Ok(Async::Ready(Some((16, addr("from")))))) {
        Ok(Async::Ready(Some((f, _)))) => assert_eq!((f.future, f.bufsize), (16, 64)),
        _ => panic!(),
    }
    match t.dial(addr("b")) {
        Err((t, a)) => assert_eq!((t.transport, t.bufsize, a), (Leaf("a"), 64, addr("b"))),
        Ok(_) => panic!(),
    }
}

#[test]
fn denied_and_refused_support_nothing() {
    match Denied.dial(addr("a")) {
        Err((d, a)) => assert_eq!((d, a), (Denied, addr("a"))),
        Ok(_) => panic!(),
    }
    assert!(Denied.listen_on(addr("a")).is_err());
    assert_eq!(Denied.nat_traversal(&addr("a"), &addr("b")), None);
    let r: Refused<u8, u8> = Refused::new();
    assert_eq!(r.nat_traversal(&addr("a"), &addr("b")), None);
    assert!(r.dial(addr("a")).is_err());
    let r: Refused<u8, u8> = Refused::new();
    match r.listen_on(addr("a")) {
        Err((_, a)) => assert_eq!(a, addr("a")),
        Ok(_) => panic!(),
    }
}

#[test]
fn built_transports() {
    let t = Built::new(Leaf("a"), Leaf("b"));
    assert_eq!(t.clone().into(), (Leaf("a"), Leaf("b")));
    assert_eq!(t.clone().dial(addr("a")).ok(), Some(32));
    assert!(t.clone().dial(addr("b")).is_err());
    assert_eq!(t.clone().listen_on(addr("b")).ok(), Some(("b", addr("listening"))));
    match t.clone().listen_on(addr("a")) {
        Err((t, a)) => assert_eq!((t.into(), a), ((Leaf("a"), Leaf("b")), addr("a"))),
        Ok(_) => panic!(),
    }
    assert_eq!(t.nat_traversal(&addr("b"), &addr("x")), Some(addr("x")));
    assert_eq!(t.clone().replace_dialer(|d: Leaf| d.0).into(), ("a", Leaf("b")));
    assert_eq!(t.replace_listener(|l: Leaf| l.0).into(), (Leaf("a"), "b"));
    assert_eq!(Built::denied().into(), (Denied, Denied));
    let refused: Built<Refused<u8, u8>, Refused<u8, u8>> = Built::refused();
    assert!(refused.dial(addr("a")).is_err());
    assert_eq!(Built::listener(Leaf("b")).into(), (Denied, Leaf("b")));
    assert_eq!(Built::listener(Leaf("b")).with_dialer(Leaf("a")).into(), (Leaf("a"), Leaf("b")));
    assert_eq!(Built::dialer(Leaf("a")).into(), (Leaf("a"), Denied));
    assert_eq!(Built::dialer(Leaf("a")).with_listener(Leaf("b")).into(), (Leaf("a"), Leaf("b")));
}

#[test]
fn common_transport_falls_back_to_websockets() {
    let t = CommonTransport::new(Leaf("tcp"), Leaf("tcp"), |_: Leaf| Leaf("ws"), |_: Leaf| Leaf("ws"));
    assert_eq!(t.clone().dial(addr("tcp")).ok(), Some(EitherFuture::A(32)));
    assert_eq!(t.clone().dial(addr("ws")).ok(), Some(EitherFuture::B(32)));
    assert_eq!(
        t.clone().listen_on(addr("ws")).ok(),
        Some((EitherListenStream::B("ws"), addr("listening")))
    );
    assert_eq!(t.nat_traversal(&addr("ws"), &addr("x")), Some(addr("x")));
    match t.dial(addr("quic")) {
        Err((t, a)) => {
            assert_eq!(a, addr("quic"));
            assert_eq!(t.dial(addr("ws")).ok(), Some(EitherFuture::B(32)));
        }
        Ok(_) => panic!(),
    }
    let t = CommonTransport::without_websocket(Leaf("tcp"), Leaf("tcp"));
    assert_eq!(t.clone().dial(addr("tcp")).ok(), Some(32));
    assert!(t.listen_on(addr("ws")).is_err());
    let t = CommonTransport::browser(Leaf("ws"));
    assert_eq!(t.clone().dial(addr("ws")).ok(), Some(32));
    assert!(t.listen_on(addr("ws")).is_err());
}

#[test]
fn timeouts() {
    let second = Duration::from_secs(1);
    let century = Duration::from_secs(3_153_600_000);
    let t = TransportTimeout::new(Leaf("a"), second);
    assert_eq!((t.outgoing_timeout, t.incoming_timeout), (second, second));
    let t = TransportTimeout::with_outgoing_timeout(Leaf("a"), second);
    assert_eq!((t.outgoing_timeout, t.incoming_timeout), (second, century));
    let t = TransportTimeout::with_ingoing_timeout(Leaf("a"), second);
    assert_eq!((t.outgoing_timeout, t.incoming_timeout), (century, second));
    let mut f = match t.clone().dial(addr("a")) {
        Ok(f) => f,
        Err(_) => panic!(),
    };
    assert_eq!((f.inner, f.timeout), (32, century));
    let polled: Result<Async<u8>, TimerError<&'static str>> = Err(TimerError::Inner("gone"));
    match f.poll(polled) {
        Err(e) => {
            assert_eq!(e.prefix(), "transport error: ");
            assert_eq!(e.cause(), Some(&"gone"));
        }
        Ok(_) => panic!(),
    }
    let polled: Result<Async<u8>, TimerError<&'static str>> = Err(TimerError::Elapsed);
    match f.poll(polled) {
        Err(e) => {
            assert_eq!(e.prefix(), "timeout");
            assert_eq!(e.cause(), None);
        }
        Ok(_) => panic!(),
    }
    let polled: Result<Async<u8>, TimerError<&'static str>> = Err(TimerError::Timer);
    match f.poll(polled) {
        Err(e) => assert_eq!(e.prefix(), "timer error"),
        Ok(_) => panic!(),
    }
    let polled: Result<Async<u8>, TimerError<&'static str>> = Ok(Async::Ready(4));
    assert!(matches!(f.poll(polled), Ok(Async::Ready(4))));
    let (mut l, _) = match t.clone().listen_on(addr("a")) {
        Ok(x) => x,
        Err(_) => panic!(),
    };
    match l.poll::<u16, &'static str>(Ok(Async::Ready(Some((16, addr("from")))))) {
        Ok(Async::Ready(Some((f, a)))) => {
            assert_eq!((f.inner, f.timeout, a), (16, second, addr("from")))
        }
        _ => panic!(),
    }
    assert!(matches!(l.poll::<u16, &'static str>(Ok(Async::NotReady)), Ok(Async::NotReady)));
    match t.dial(addr("b")) {
        Err((t, _)) => assert_eq!((t.outgoing_timeout, t.incoming_timeout), (century, second)),
        Ok(_) => panic!(),
    }
}

#[test]
fn errors_of_transports() {
    let e: Error<&'static str, u8> = Error::Transport("gone");
    assert_eq!(e.prefix(), "transport error: ");
    assert!(matches!(e.cause(), Some(Cause::Transport(&"gone"))));
    assert!(matches!(e.map_transport_err(|t: &'static str| t.len()), Error::Transport(4)));
    let e: Error<&'static str, u8> = Error::from(UpgradeError::Apply(7));
    assert_eq!(e.prefix(), "upgrade error: ");
    assert!(matches!(e.cause(), Some(Cause::Upgrade(_))));
    assert!(matches!(
        e.map_upgrade_err(|u: u8| u + 1),
        Error::Upgrade(UpgradeError::Apply(8))
    ));
    let e: Error<&'static str, u8> =
        Error::Upgrade(UpgradeError::from(ProtocolChoiceError::NoProtocolFound));
    assert!(matches!(
        e.map_upgrade_err(|u: u8| u + 1),
        Error::Upgrade(UpgradeError::Select(ProtocolChoiceError::NoProtocolFound))
    ));
    let e: Error<&'static str, u8> = Error::from(std::io::Error::new(std::io::ErrorKind::Other, "x"));
    assert_eq!(e.prefix(), "i/o error: ");
    assert!(matches!(e.cause(), Some(Cause::Io(_))));
    assert!(matches!(e.map_transport_err(|t: &'static str| t.len()), Error::Io(_)));
    let e: Error<&'static str, u8> = Error::__Nonexhaustive;
    assert!(e.cause().is_none());
    assert_eq!(e.prefix(), "__Nonexhaustive");
}

#[test]
fn upgraded_transports() {
    let t = Upgrade::new(Slow("a"), Hello);
    assert_eq!(Transport::nat_traversal(&t, &addr("a"), &addr("x")), Some(addr("x")));
    let mut on = match Transport::listen_on(t.clone(), addr("a")) {
        Ok(f) => f,
        Err(_) => panic!(),
    };
    assert_eq!(on.future, 64);
    assert!(matches!(
        on.poll::<&'static str, &'static str>(Ok(Async::NotReady)),
        Ok(Async::NotReady)
    ));
    let started = on.poll::<&'static str, &'static str>(Ok(Async::Ready((
        "stream",
        MultiaddrSeq::singleton(addr("at")),
    ))));
    match started {
        Ok(Async::Ready((mut l, addrs))) => {
            assert_eq!(addrs, MultiaddrSeq::singleton(addr("at")));
            assert_eq!((l.listener, l.upgrade.clone()), ("stream", Hello));
            match l.poll::<u16, &'static str>(Ok(Async::Ready(Some((16, addr("from")))))) {
                Ok(Async::Ready(Some((mut f, a)))) => {
                    assert_eq!((f.future, a), (16, addr("from")));
                    assert!(matches!(
                        f.poll::<u8, &'static str>(Ok(Async::NotReady)),
                        Ok(Async::NotReady)
                    ));
                    match f.poll::<u8, &'static str>(Ok(Async::Ready(5))) {
                        Ok(Async::Ready(mut apply)) => {
                            assert_eq!(apply.connection(), Some(&mut 5))
                        }
                        _ => panic!(),
                    }
                }
                _ => panic!(),
            }
        }
        _ => panic!(),
    }
    let mut f = match Transport::dial(t.clone(), addr("a")) {
        Ok(f) => f,
        Err(_) => panic!(),
    };
    assert_eq!(f.future, 32);
    match f.poll::<u8, &'static str, _, _>(Ok(Async::Ready(5)), |c, names| {
        let names: Vec<Vec<u8>> = names.into_iter().map(|n| n.0).collect();
        (c, names)
    }) {
        Ok(Async::Ready(mut apply)) => {
            assert_eq!(apply.select(), Some(&mut (5, vec![b"/hello".to_vec()])))
        }
        _ => panic!(),
    }
    match Transport::dial(t, addr("b")) {
        Err((t, a)) => assert_eq!((t.inner, t.upgrade, a), (Slow("a"), Hello, addr("b"))),
        Ok(_) => panic!(),
    }
    let d = Leaf("a").with_dialer_upgrade(Hello);
    let mut f = match Dialer::dial(d, addr("a")) {
        Ok(f) => f,
        Err(_) => panic!(),
    };
    match f.poll::<u8, &'static str, _, _>(Err("gone"), |_, _| ()) {
        Err(e) => assert_eq!(e, "gone"),
        Ok(_) => panic!(),
    }
    assert!(f.upgrade.is_none());
    let l = Leaf("a").with_listener_upgrade(Hello);
    assert!(Listener::listen_on(l.clone(), addr("a")).is_ok());
    assert_eq!(Listener::nat_traversal(&l, &addr("a"), &addr("x")), Some(addr("x")));
}

#[test]
fn readiness() {
    let ready: Async<u8> = Async::Ready(1);
    assert!(ready.is_ready());
    let not: Async<u8> = Async::NotReady;
    assert!(!not.is_ready());
    let none: NoError = Ok(Async::NotReady);
    assert!(none.is_ok());
}

#[test]
fn either_is_copied() {
    let e: EitherError<u8, u16> = EitherError::A(1);
    let o: EitherOutput<u8, u16> = EitherOutput::B(2);
    let s: EitherListenStream<u8, u16> = EitherListenStream::A(3);
    let f: EitherFuture<u8, u16> = EitherFuture::B(4);
    let (e2, o2, s2, f2) = (e, o, s, f);
    assert_eq!((e.clone(), o.clone(), s.clone(), f.clone()), (e2, o2, s2, f2));
}
