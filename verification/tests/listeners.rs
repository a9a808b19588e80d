use libp2p::address::{Multiaddr, MultiaddrSeq, PeerId, Protocol};
use libp2p::async_value::{Async, Poll};
use libp2p::nodes::listeners::{
    ListenersAction, ListenersEvent, ListenersInput, ListenersStream,
};
use libp2p::transport::Transport;
use std::cell::RefCell;
use std::rc::Rc;
use std::sync::Arc;

fn addr(text: &str) -> Multiaddr {
    let parts: Vec<Protocol> = text
        .split('/')
        .filter(|p| !p.is_empty())
        .map(|p| Protocol::Other(Arc::new(p.as_bytes().to_vec())))
        .collect();
    Multiaddr::from_components(parts)
}

type Output = (PeerId, u32);

#[derive(Clone, Debug, PartialEq)]
enum ListenerState {
    NotReady,
    Ready(Option<Output>),
    Error,
}

type Shared = Rc<RefCell<ListenerState>>;

#[derive(Clone, Debug)]
struct DummyTransport {
    initial: ListenerState,
    listeners: Rc<RefCell<Vec<(Multiaddr, Shared)>>>,
}

impl PartialEq for DummyTransport {
    fn eq(&self, other: &DummyTransport) -> bool {
        self.initial == other.initial
    }
}

impl DummyTransport {
    fn new() -> DummyTransport {
        DummyTransport {
            initial: ListenerState::NotReady,
            listeners: Rc::new(RefCell::new(Vec::new())),
        }
    }

    fn set_initial_listener_state(&mut self, state: ListenerState) {
        self.initial = state;
    }
}

struct DummyListener {
    addr: Multiaddr,
    state: Shared,
}

struct Starting {
    addr: Multiaddr,
    state: Shared,
    ready: Result<bool, &'static str>,
}

impl Transport for DummyTransport {
    type Output = Output;
    type Error = &'static str;
    type ListenOn = Starting;
    type Listener = DummyListener;
    type ListenerUpgrade = Output;
    type Dial = ();

    fn listen_on(self, addr: Multiaddr) -> Result<Starting, (Self, Multiaddr)> {
        if addr == self::addr("/unsupported") {
            return Err((self, addr));
        }
        let ready = if addr == self::addr("/late") {
            Ok(false)
        } else if addr == self::addr("/broken") {
            Err("cannot start")
        } else {
            Ok(true)
        };
        let state = Rc::new(RefCell::new(self.initial.clone()));
        self.listeners.borrow_mut().push((addr.clone(), state.clone()));
        Ok(Starting { addr, state, ready })
    }

    fn dial(self, addr: Multiaddr) -> Result<(), (Self, Multiaddr)> {
        Err((self, addr))
    }

    fn nat_traversal(&self, _: &Multiaddr, _: &Multiaddr) -> Option<Multiaddr> {
        None
    }
}

type Stream = ListenersStream<DummyTransport>;

fn poll_start(future: &Starting) -> Poll<(DummyListener, MultiaddrSeq), &'static str> {
    match future.ready {
        Ok(true) => Ok(Async::Ready((
            DummyListener { addr: future.addr.clone(), state: future.state.clone() },
            MultiaddrSeq::singleton(future.addr.clone()),
        ))),
        Ok(false) => Ok(Async::NotReady),
        Err(e) => Err(e),
    }
}

fn poll_listener(listener: &DummyListener) -> Poll<Option<(Output, Multiaddr)>, &'static str> {
    match &*listener.state.borrow() {
        ListenerState::NotReady => Ok(Async::NotReady),
        ListenerState::Ready(Some(o)) => {
            Ok(Async::Ready(Some((o.clone(), listener.addr.clone()))))
        }
        ListenerState::Ready(None) => Ok(Async::Ready(None)),
        ListenerState::Error => Err("oh noes"),
    }
}

fn poll(ls: &mut Stream) -> Async<ListenersEvent<DummyTransport>> {
    let mut input = ListenersInput::Start;
    loop {
        match ls.poll(input) {
            ListenersAction::PollPending { address, future } => {
                let polled = poll_start(&future);
                input = ListenersInput::Pending { address, future, polled };
            }
            ListenersAction::PollActive { listener } => {
                let polled = poll_listener(&listener.listener);
                input = ListenersInput::Active { listener, polled };
            }
            ListenersAction::Return(r) => return r,
        }
    }
}

fn set_listener_state(
    t: &DummyTransport,
    ls: &Stream,
    idx: usize,
    state: ListenerState,
) {
    let listeners = ls.listeners();
    let addr = listeners[idx].head();
    for (a, s) in t.listeners.borrow().iter() {
        if a == addr {
            *s.borrow_mut() = state.clone();
        }
    }
}

fn expect_started(ls: &mut Stream) -> Multiaddr {
    match poll(ls) {
        Async::Ready(ListenersEvent::Listener { address, result }) => {
            assert!(result.is_ok());
            address
        }
        _ => panic!(),
    }
}

fn expect_incoming(ls: &mut Stream, on: &Multiaddr) -> Output {
    match poll(ls) {
        Async::Ready(ListenersEvent::Incoming { listen_addrs, upgrade, send_back_addr }) => {
            assert_eq!(listen_addrs.head(), on);
            assert_eq!(&send_back_addr, on);
            upgrade
        }
        _ => panic!(),
    }
}

fn output() -> Output {
    (PeerId::from_bytes(vec![18, 32, 1, 2, 3]), 7)
}

#[test]
fn listener_starts() {
    let mut listeners = ListenersStream::new(DummyTransport::new());
    listeners.listen_on(addr("/memory")).unwrap();
    match poll(&mut listeners) {
        Async::Ready(ListenersEvent::Listener { address, result: Ok(addrs) }) => {
            assert_eq!(address, addr("/memory"));
            assert_eq!(addrs, MultiaddrSeq::singleton(addr("/memory")));
        }
        _ => panic!(),
    }
}

#[test]
fn listener_stream_returns_transport() {
    let t = DummyTransport::new();
    let t_clone = t.clone();
    let ls = ListenersStream::new(t);
    assert_eq!(ls.transport(), &t_clone);
}

#[test]
fn listener_stream_can_iterate_over_listeners() {
    let t = DummyTransport::new();
    let addr1 = addr("/ip4/127.0.0.1/tcp/1234");
    let addr2 = addr("/ip4/127.0.0.1/tcp/4321");
    let expected_addrs = vec![
        MultiaddrSeq::singleton(addr1.clone()),
        MultiaddrSeq::singleton(addr2.clone()),
    ];
    let mut ls = ListenersStream::new(t);
    ls.listen_on(addr1).expect("listen_on failed");
    ls.listen_on(addr2).expect("listen_on failed");
    expect_started(&mut ls);
    expect_started(&mut ls);
    assert_eq!(ls.listeners(), expected_addrs);
}

#[test]
fn listener_stream_poll_without_listeners_is_not_ready() {
    let mut ls = ListenersStream::new(DummyTransport::new());
    assert!(matches!(poll(&mut ls), Async::NotReady));
}

#[test]
fn listener_stream_poll_with_listeners_that_arent_ready_is_not_ready() {
    let t = DummyTransport::new();
    let mut ls = ListenersStream::new(t.clone());
    ls.listen_on(addr("/ip4/127.0.0.1/tcp/1234")).expect("listen_on failed");
    expect_started(&mut ls);
    set_listener_state(&t, &ls, 0, ListenerState::NotReady);
    assert!(matches!(poll(&mut ls), Async::NotReady));
    assert_eq!(ls.listeners().len(), 1);
}

#[test]
fn listener_stream_poll_with_ready_listeners_is_ready() {
    let mut t = DummyTransport::new();
    let expected_output = output();
    t.set_initial_listener_state(ListenerState::Ready(Some(output())));
    let mut ls = ListenersStream::new(t.clone());
    let addr1 = addr("/ip4/127.0.0.1/tcp/1234");
    let addr2 = addr("/ip4/127.0.0.2/tcp/4321");
    ls.listen_on(addr1.clone()).expect("listen_on works");
    ls.listen_on(addr2.clone()).expect("listen_on works");
    assert_eq!(ls.listeners().len(), 0);
    for _ in 0..2 {
        expect_started(&mut ls);
    }
    assert_eq!(ls.listeners().len(), 2);
    assert_eq!(expect_incoming(&mut ls, &addr2), expected_output);
    assert_eq!(expect_incoming(&mut ls, &addr1), expected_output);
    set_listener_state(&t, &ls, 1, ListenerState::NotReady);
    assert_eq!(expect_incoming(&mut ls, &addr1), expected_output);
}

#[test]
fn listener_stream_poll_with_closed_listener_emits_closed_event() {
    let t = DummyTransport::new();
    let mut ls = ListenersStream::new(t.clone());
    ls.listen_on(addr("/ip4/127.0.0.1/tcp/1234")).expect("listen_on failed");
    expect_started(&mut ls);
    set_listener_state(&t, &ls, 0, ListenerState::Ready(None));
    match poll(&mut ls) {
        Async::Ready(ListenersEvent::Closed { listen_addrs, result, .. }) => {
            assert_eq!(listen_addrs.head(), &addr("/ip4/127.0.0.1/tcp/1234"));
            assert_eq!(result, Ok(()));
        }
        _ => panic!(),
    }
    assert_eq!(ls.listeners().len(), 0);
}

#[test]
fn listener_stream_poll_with_erroring_listener_emits_closed_event() {
    let mut t = DummyTransport::new();
    t.set_initial_listener_state(ListenerState::Ready(Some(output())));
    let mut ls = ListenersStream::new(t.clone());
    ls.listen_on(addr("/ip4/127.0.0.1/tcp/1234")).expect("listen_on failed");
    expect_started(&mut ls);
    set_listener_state(&t, &ls, 0, ListenerState::Error);
    match poll(&mut ls) {
        Async::Ready(ListenersEvent::Closed { result, .. }) => assert_eq!(result, Err("oh noes")),
        _ => panic!(),
    }
    assert_eq!(ls.listeners().len(), 0);
}

#[test]
fn listener_stream_poll_chatty_listeners_each_get_their_turn() {
    let mut t = DummyTransport::new();
    t.set_initial_listener_state(ListenerState::Ready(Some(output())));
    let mut ls = ListenersStream::new(t.clone());
    let name = |n: i32| addr(&format!("/ip4/127.0.0.{}/tcp/{}", n, n));
    for n in 0..4 {
        ls.listen_on(name(n)).expect("listen_on failed");
    }
    for n in 0..4 {
        assert_eq!(expect_started(&mut ls), name(n));
    }
    for n in (0..4).rev() {
        expect_incoming(&mut ls, &name(n));
    }
    for n in (0..4).rev() {
        expect_incoming(&mut ls, &name(n));
    }
    set_listener_state(&t, &ls, 3, ListenerState::NotReady);
    for n in (0..3).rev() {
        expect_incoming(&mut ls, &name(n));
    }
    for n in (0..3).rev() {
        expect_incoming(&mut ls, &name(n));
    }
    set_listener_state(&t, &ls, 3, ListenerState::Ready(Some(output())));
    for n in (0..4).rev() {
        expect_incoming(&mut ls, &name(n));
    }
}

#[test]
fn listener_stream_poll_processes_listeners_in_turn() {
    let mut t = DummyTransport::new();
    t.set_initial_listener_state(ListenerState::Ready(Some(output())));
    let mut ls = ListenersStream::new(t.clone());
    let name = |n: i32| addr(&format!("/ip4/127.0.0.{}/tcp/{}", n, n));
    for n in 0..4 {
        ls.listen_on(name(n)).expect("listen_on failed");
    }
    for n in 0..4 {
        assert_eq!(expect_started(&mut ls), name(n));
    }
    for n in (0..4).rev() {
        expect_incoming(&mut ls, &name(n));
        set_listener_state(&t, &ls, 0, ListenerState::NotReady);
    }
    assert!(matches!(poll(&mut ls), Async::NotReady));
}

#[test]
fn unsupported_address_is_handed_back() {
    let mut ls = ListenersStream::with_capacity(DummyTransport::new(), 3);
    assert_eq!(ls.listen_on(addr("/unsupported")), Err(addr("/unsupported")));
    assert!(matches!(poll(&mut ls), Async::NotReady));
    let transport = DummyTransport::new();
    assert_eq!(
        ls.listen_on_asked(addr("/memory"), Err((transport, addr("/memory")))),
        Err(addr("/memory"))
    );
    assert!(matches!(poll(&mut ls), Async::NotReady));
}

#[test]
fn pending_listeners_wait_and_fail() {
    let mut ls = ListenersStream::new(DummyTransport::new());
    ls.listen_on(addr("/late")).unwrap();
    ls.listen_on(addr("/broken")).unwrap();
    match poll(&mut ls) {
        Async::Ready(ListenersEvent::Listener { address, result }) => {
            assert_eq!(address, addr("/broken"));
            assert_eq!(result, Err("cannot start"));
        }
        _ => panic!(),
    }
    assert!(matches!(poll(&mut ls), Async::NotReady));
    assert_eq!(ls.listeners().len(), 0);
}
