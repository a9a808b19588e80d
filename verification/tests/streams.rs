use bytes::BytesMut;
use libp2p::address::{Multiaddr, MultiaddrSeq, PeerId, Protocol};
use libp2p::async_value::{Async, AsyncSink, Poll};
use libp2p::relay::error::{Cause, RelayError};
use libp2p::secio::buffered::{Buffered, SendAction};
use libp2p::transport::error::Error;
use libp2p::upgrade::{InboundUpgrade, OutboundUpgrade, UpgradeInfo};
use libp2p::yamux_muxer::{CloseAction, CloseInput, Config, Mode, MuxError, Setup, Yamux};
use std::sync::Arc;

fn bytes(text: &str) -> BytesMut {
    BytesMut::from(text)
}

/// Sends an item; the sink takes `takes` items and then no more.
fn send(b: &mut Buffered<Vec<String>>, text: &str, takes: usize) -> Result<AsyncSink<BytesMut>, ()> {
    let mut left = takes;
    let mut action = b.start_send::<()>(bytes(text));
    loop {
        match action {
            SendAction::Forward(item) => return give(b, item, &mut left),
            SendAction::Flush(buf, item) => {
                let sent = give(b, buf, &mut left);
                action = b.resume_send(item, sent);
            }
            SendAction::Return(r) => return r,
        }
    }
}

fn give(
    b: &mut Buffered<Vec<String>>,
    item: BytesMut,
    left: &mut usize,
) -> Result<AsyncSink<BytesMut>, ()> {
    if *left == 0 {
        return Ok(AsyncSink::NotReady(item));
    }
    *left -= 1;
    b.get_mut().push(String::from_utf8(item.to_vec()).unwrap());
    Ok(AsyncSink::Ready)
}

fn complete(b: &mut Buffered<Vec<String>>, takes: usize) -> Poll<(), ()> {
    let mut left = takes;
    let buf = b.poll_complete();
    let sent = give(b, buf, &mut left);
    b.resume_complete(sent)
}

#[test]
fn small_items_are_collected() {
    let mut b = Buffered::new(Vec::new(), 8);
    for text in vec!["abc", "def", "gh"] {
        assert_eq!(send(&mut b, text, 9), Ok(AsyncSink::Ready));
    }
    assert!(b.get_mut().is_empty());
    assert_eq!(send(&mut b, "i", 9), Ok(AsyncSink::Ready));
    assert_eq!(b.get_mut(), &vec!["abcdefgh".to_string()]);
    assert_eq!(complete(&mut b, 9), Ok(Async::Ready(())));
    assert_eq!(b.get_mut(), &vec!["abcdefgh".to_string(), "i".to_string()]);
}

#[test]
fn large_items_go_straight_to_the_sink() {
    let mut b = Buffered::new(Vec::new(), 4);
    assert_eq!(send(&mut b, "too large", 9), Ok(AsyncSink::Ready));
    assert_eq!(send(&mut b, "ab", 9), Ok(AsyncSink::Ready));
    assert_eq!(send(&mut b, "too large", 9), Ok(AsyncSink::Ready));
    let expected: Vec<String> =
        vec!["too large", "ab", "too large"].into_iter().map(String::from).collect();
    assert_eq!(b.get_mut(), &expected);
    let mut none = Buffered::new(Vec::new(), 0);
    assert_eq!(send(&mut none, "x", 9), Ok(AsyncSink::Ready));
    assert_eq!(none.get_mut(), &vec!["x".to_string()]);
}

#[test]
fn nothing_is_lost_when_the_sink_is_full() {
    let mut b = Buffered::new(Vec::new(), 4);
    assert_eq!(send(&mut b, "abc", 0), Ok(AsyncSink::Ready));
    assert_eq!(send(&mut b, "def", 0), Ok(AsyncSink::NotReady(bytes("def"))));
    assert_eq!(complete(&mut b, 0), Ok(Async::NotReady));
    assert_eq!(send(&mut b, "def", 1), Ok(AsyncSink::Ready));
    assert_eq!(send(&mut b.clone(), "too large", 1), Ok(AsyncSink::NotReady(bytes("too large"))));
    assert_eq!(complete(&mut b, 1), Ok(Async::Ready(())));
    assert_eq!(b.get_mut(), &vec!["abc".to_string(), "def".to_string()]);
}

#[test]
fn failed_flush_is_told() {
    let mut b: Buffered<()> = Buffered::new((), 4);
    b.start_send::<u8>(bytes("abc"));
    match b.start_send::<u8>(bytes("def")) {
        SendAction::Flush(buf, item) => {
            assert_eq!(buf, bytes("abc"));
            match b.resume_send(item, Err(7u8)) {
                SendAction::Return(r) => assert_eq!(r, Err(7)),
                _ => panic!(),
            }
        }
        _ => panic!(),
    }
    b.poll_complete();
    assert_eq!(b.resume_complete(Err(8u8)), Err(8));
}

type Connection = Yamux<u8, u16>;

#[test]
fn yamux_streams() {
    let mut y: Connection = Yamux::new(3);
    assert_eq!(*y.handle(), 3);
    assert!(!y.is_remote_acknowledged());
    assert_eq!(y.poll_inbound::<u8, ()>(Err(())), Err(MuxError::ConnectionGone));
    assert_eq!(y.poll_inbound::<u8, ()>(Ok(Async::NotReady)), Ok(Async::NotReady));
    assert_eq!(y.poll_inbound::<u8, ()>(Ok(Async::Ready(None))), Err(MuxError::BrokenPipe));
    assert!(!y.is_remote_acknowledged());
    assert_eq!(y.poll_inbound::<u8, ()>(Ok(Async::Ready(Some(9)))), Ok(Async::Ready(9)));
    assert!(y.is_remote_acknowledged());
    assert_eq!(y.poll_outbound::<u8, u8>(Err(4)), Err(MuxError::Other(4)));
    assert_eq!(y.poll_outbound::<u8, u8>(Ok(Async::Ready(None))), Err(MuxError::BrokenPipe));
    assert_eq!(y.poll_outbound::<u8, u8>(Ok(Async::Ready(Some(5)))), Ok(Async::Ready(5)));
    assert_eq!(y.poll_outbound::<u8, u8>(Ok(Async::NotReady)), Ok(Async::NotReady));
    assert_eq!(y.flush_all::<()>(), Ok(Async::Ready(())));
    let mut y: Connection = Yamux::new(3);
    assert_eq!(y.read_substream::<u8>(Ok(Async::NotReady)), Ok(Async::NotReady));
    assert_eq!(y.read_substream(Err(1u8)), Err(1));
    assert!(!y.is_remote_acknowledged());
    assert_eq!(y.read_substream::<u8>(Ok(Async::Ready(6))), Ok(Async::Ready(6)));
    assert!(y.is_remote_acknowledged());
}

#[test]
fn yamux_close() {
    let mut y: Connection = Yamux::new(3);
    assert!(matches!(y.close::<u8>(CloseInput::Start), CloseAction::Begin));
    assert!(matches!(y.close(CloseInput::Begun(1, Err(9u8))), CloseAction::Return(Err(9))));
    assert!(matches!(y.close::<u8>(CloseInput::Start), CloseAction::Begin));
    assert_eq!(y.end(), None);
    assert!(matches!(
        y.close::<u8>(CloseInput::Begun(2, Ok(Async::NotReady))),
        CloseAction::Return(Ok(Async::NotReady))
    ));
    assert_eq!(y.end(), Some(&mut 2));
    assert!(matches!(y.close::<u8>(CloseInput::Start), CloseAction::PollClose));
    assert!(matches!(y.close(CloseInput::Polled(Err(9u8))), CloseAction::Return(Err(9))));
    assert!(matches!(y.close::<u8>(CloseInput::Start), CloseAction::PollClose));
    assert!(matches!(
        y.close::<u8>(CloseInput::Polled(Ok(Async::Ready(())))),
        CloseAction::Return(Ok(Async::Ready(())))
    ));
    for _ in 0..2 {
        assert!(matches!(
            y.close::<u8>(CloseInput::Start),
            CloseAction::Return(Ok(Async::Ready(())))
        ));
    }
}

#[test]
fn yamux_upgrade() {
    let config = Config::default();
    assert_eq!(config.protocol_info(), vec![b"/yamux/1.0.0".to_vec()]);
    assert!(format!("{:?}", config).contains("read_after_close: true"));
    assert!(format!("{:?}", config).contains("max_num_streams: 8192"));
    let inbound: Setup<u8> = config.clone().upgrade_inbound(4, b"/yamux/1.0.0".to_vec());
    assert_eq!((inbound.socket, inbound.mode), (4, Mode::Server));
    assert!(format!("{:?}", inbound.config).contains("read_after_close: false"));
    let mut settings = yamux::Config::default();
    settings.set_max_num_streams(17);
    let outbound: Setup<u8> =
        Config::new(settings).upgrade_outbound(5, b"/yamux/1.0.0".to_vec());
    assert_eq!((outbound.socket, outbound.mode), (5, Mode::Client));
    assert!(format!("{:?}", outbound.config).contains("max_num_streams: 17"));
    assert!(format!("{:?}", outbound.config).contains("read_after_close: false"));
}

#[test]
fn errors_of_relays() {
    let io: RelayError<u8, u8> =
        RelayError::from(std::io::Error::new(std::io::ErrorKind::Other, "x"));
    assert_eq!(io.prefix(), "i/o error: ");
    assert!(matches!(io.cause(), Some(Cause::Io(_))));
    let transport: RelayError<u8, u8> = RelayError::from(Error::Transport(3));
    assert_eq!(transport.prefix(), "transport error: ");
    assert!(matches!(transport.cause(), Some(Cause::Transport(Error::Transport(3)))));
    let relay: RelayError<u8, u8> = RelayError::NoRelayFor(PeerId::from_bytes(vec![1]));
    assert_eq!(relay.prefix(), "no relay for peer: ");
    assert!(relay.cause().is_none());
    let message: RelayError<u8, u8> = RelayError::Message("no luck");
    assert_eq!(message.prefix(), "no luck");
    assert!(message.cause().is_none());
    let other: RelayError<u8, u8> = RelayError::__Nonexhaustive;
    assert_eq!(other.prefix(), "__Nonexhaustive");
    assert!(other.cause().is_none());
}

#[test]
fn addresses() {
    let tcp = Protocol::Other(Arc::new(b"tcp".to_vec()));
    let mut a = Multiaddr::from_components(vec![tcp.clone()]);
    a.append(Protocol::Curve25519([7; 32]));
    assert_eq!(a.pop(), Some(Protocol::Curve25519([7; 32])));
    assert_eq!(a, Multiaddr::from_components(vec![tcp.clone()]));
    assert_eq!(a.pop(), Some(tcp));
    assert_eq!(a.pop(), None);
    assert_eq!(MultiaddrSeq::singleton(a.clone()).head(), &a);
    assert!(PeerId::from_bytes(vec![1, 2]).same(&PeerId::from_bytes(vec![1, 2])));
    assert!(!PeerId::from_bytes(vec![1, 2]).same(&PeerId::from_bytes(vec![1, 3])));
}

#[test]
fn refused_items_are_given_back() {
    let mut b = Buffered::new(Vec::new(), 4);
    assert!(b.can_take(&bytes("abcd")));
    assert!(b.can_take(&bytes("too large")));
    assert_eq!(send(&mut b, "too large", 0), Ok(AsyncSink::NotReady(bytes("too large"))));
    assert_eq!(send(&mut b, "ab", 0), Ok(AsyncSink::Ready));
    assert_eq!(send(&mut b, "cd", 0), Ok(AsyncSink::Ready));
    assert!(b.can_take(&bytes("e")));
    assert_eq!(send(&mut b, "e", 0), Ok(AsyncSink::NotReady(bytes("e"))));
    assert!(b.get_mut().is_empty());
    // The buffer goes first, and then the item is refused.
    assert_eq!(send(&mut b, "too large", 1), Ok(AsyncSink::NotReady(bytes("too large"))));
    assert_eq!(b.get_mut(), &vec!["abcd".to_string()]);
    assert_eq!(send(&mut b, "too large", 1), Ok(AsyncSink::Ready));
    assert_eq!(b.get_mut(), &vec!["abcd".to_string(), "too large".to_string()]);
}
