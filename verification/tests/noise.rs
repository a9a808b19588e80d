use libp2p::address::{Multiaddr, Protocol};
use libp2p::async_value::{Async, Poll};
use libp2p::noise::handshake::{
    HandshakeAction, HandshakeInput, NoiseDialFuture, NoiseListenFuture,
};
use libp2p::noise::keys::{montgomery, Keypair, NoiseError, PublicKey};
use libp2p::noise::output::{
    IoError, NoiseOutput, ReadAction, ReadInput, WriteAction, WriteInput,
};
use libp2p::noise::session::{NoiseSession, PATTERN};
use libp2p::noise::NoiseConfig;
use libp2p::transport::try_transport::{TransportError, TryTransport};
use std::collections::VecDeque;
use std::sync::Arc;

type Io = &'static str;
type Dialing = NoiseDialFuture<u32, u8>;
type Listening = NoiseListenFuture<u32, u8>;
type Input = HandshakeInput<u8, &'static str, Io>;
type Action = HandshakeAction<u8, &'static str, Io>;
type Ended = Result<(PublicKey, NoiseOutput<u8>), NoiseError<&'static str, Io>>;

#[derive(Clone)]
struct Plain;

fn component(text: &str) -> Protocol {
    Protocol::Other(Arc::new(text.as_bytes().to_vec()))
}

impl TryTransport for Plain {
    type Output = u8;
    type Error = &'static str;
    type Listener = u16;
    type ListenerUpgrade = u32;
    type Dial = u32;

    fn listen_on(self, addr: Multiaddr) -> Result<(u16, Multiaddr), TransportError<&'static str>> {
        if addr == Multiaddr::from_components(vec![component("bad")]) {
            return Err(TransportError::Other("cannot listen"));
        }
        if addr == Multiaddr::from_components(vec![]) {
            return Err(TransportError::MultiaddrNotSupported(addr));
        }
        Ok((16, addr))
    }

    fn dial(self, addr: Multiaddr) -> Result<u32, TransportError<&'static str>> {
        if addr == Multiaddr::from_components(vec![component("bad")]) {
            return Err(TransportError::Other("cannot dial"));
        }
        if addr == Multiaddr::from_components(vec![]) {
            return Err(TransportError::MultiaddrNotSupported(addr));
        }
        Ok(32)
    }

    fn nat_traversal(&self, server: &Multiaddr, _: &Multiaddr) -> Option<Multiaddr> {
        Some(server.clone())
    }
}

fn secret(n: u8) -> [u8; 32] {
    let mut s = [n; 32];
    s[0] &= 248;
    s[31] &= 127;
    s[31] |= 64;
    s
}

fn address(key: &PublicKey) -> Multiaddr {
    Multiaddr::from_components(vec![component("memory"), Protocol::Curve25519(*key.as_bytes())])
}

fn dialing(own: u8, key: &PublicKey) -> Dialing {
    match NoiseConfig::new(Plain, Keypair::from_secret(secret(own))).dial::<Io>(address(key)) {
        Ok(f) => f,
        Err(_) => panic!(),
    }
}

fn listening(own: u8) -> Listening {
    let config = NoiseConfig::new(Plain, Keypair::from_secret(secret(own)));
    let addr = Multiaddr::from_components(vec![component("memory")]);
    let (mut listener, a) = match config.clone().listen_on::<Io>(addr.clone()) {
        Ok(l) => l,
        Err(_) => panic!(),
    };
    assert_eq!(a, addr);
    assert_eq!(*listener.listener(), 16);
    match listener.poll::<u32, u8, &'static str, Io>(Ok(Async::Ready(Some((32, addr.clone()))))) {
        Ok(Async::Ready(Some((f, a)))) => {
            assert_eq!(a, addr);
            f
        }
        _ => panic!(),
    }
}

type Outcome = Poll<(PublicKey, NoiseOutput<u8>), NoiseError<&'static str, Io>>;

fn answer(
    action: Action,
    inbox: &mut VecDeque<u8>,
    outbox: &mut VecDeque<u8>,
) -> Result<Input, Outcome> {
    Ok(match action {
        HandshakeAction::PollInner => HandshakeInput::Connected(Ok(Async::Ready(1))),
        HandshakeAction::ReadLen => HandshakeInput::Len(read_len(inbox)),
        HandshakeAction::ReadData(n) => HandshakeInput::Data(read_data(inbox, n)),
        HandshakeAction::WriteLen(n) => {
            outbox.extend(n.to_be_bytes());
            HandshakeInput::LenWritten(Ok(()))
        }
        HandshakeAction::WriteData(d) => {
            let n = std::cmp::min(d.len(), 11);
            outbox.extend(&d[..n]);
            HandshakeInput::Written(Ok(n))
        }
        HandshakeAction::Return(r) => return Err(r),
    })
}

fn read_len(inbox: &mut VecDeque<u8>) -> Result<u16, IoError<Io>> {
    if inbox.len() < 2 {
        return Err(IoError::WouldBlock);
    }
    let a = inbox.pop_front().unwrap();
    let b = inbox.pop_front().unwrap();
    Ok(u16::from_be_bytes([a, b]))
}

fn read_data(inbox: &mut VecDeque<u8>, n: usize) -> Result<Vec<u8>, IoError<Io>> {
    let k = std::cmp::min(std::cmp::min(n, inbox.len()), 7);
    if k == 0 {
        return Err(IoError::WouldBlock);
    }
    Ok(inbox.drain(..k).collect())
}

/// Runs both sides until both have ended or neither can go on.
fn shake(mut d: Dialing, mut l: Listening) -> (Option<Ended>, Option<Ended>) {
    let mut to_l: VecDeque<u8> = VecDeque::new();
    let mut to_d: VecDeque<u8> = VecDeque::new();
    let mut d_end: Option<Ended> = None;
    let mut l_end: Option<Ended> = None;
    for _ in 0..4 {
        let mut input = HandshakeInput::Start;
        while d_end.is_none() {
            match answer(d.poll(input), &mut to_d, &mut to_l) {
                Ok(i) => input = i,
                Err(Ok(Async::NotReady)) => break,
                Err(Ok(Async::Ready(r))) => {
                    d_end = Some(Ok(r));
                    break;
                }
                Err(Err(e)) => {
                    d_end = Some(Err(e));
                    break;
                }
            }
        }
        let mut input = HandshakeInput::Start;
        while l_end.is_none() {
            match answer(l.poll(input), &mut to_l, &mut to_d) {
                Ok(i) => input = i,
                Err(Ok(Async::NotReady)) => break,
                Err(Ok(Async::Ready(r))) => {
                    l_end = Some(Ok(r));
                    break;
                }
                Err(Err(e)) => {
                    l_end = Some(Err(e));
                    break;
                }
            }
        }
    }
    (d_end, l_end)
}

fn connected() -> (NoiseOutput<u8>, NoiseOutput<u8>) {
    let key = *Keypair::from_secret(secret(2)).public();
    match shake(dialing(1, &key), listening(2)) {
        (Some(Ok((_, d))), Some(Ok((_, l)))) => (d, l),
        _ => panic!(),
    }
}

fn write(o: &mut NoiseOutput<u8>, text: &[u8], out: &mut VecDeque<u8>) -> Result<usize, IoError<Io>> {
    let mut input = WriteInput::Start;
    loop {
        match o.write(text, input) {
            WriteAction::WriteLen(n) => {
                out.extend(n.to_be_bytes());
                input = WriteInput::LenWritten(Ok(()));
            }
            WriteAction::WriteData(d) => {
                out.extend(&d);
                input = WriteInput::Written(Ok(d.len()));
            }
            WriteAction::Return(r) => return r,
        }
    }
}

fn flush(o: &mut NoiseOutput<u8>, out: &mut VecDeque<u8>) -> Result<(), IoError<Io>> {
    let mut input = WriteInput::Start;
    loop {
        match o.flush(input) {
            WriteAction::WriteLen(n) => {
                out.extend(n.to_be_bytes());
                input = WriteInput::LenWritten(Ok(()));
            }
            WriteAction::WriteData(d) => {
                let n = std::cmp::min(d.len(), 1000);
                out.extend(&d[..n]);
                input = WriteInput::Written(Ok(n));
            }
            WriteAction::Return(r) => return r,
        }
    }
}

fn read(o: &mut NoiseOutput<u8>, n: usize, inbox: &mut VecDeque<u8>) -> Result<Vec<u8>, IoError<Io>> {
    let mut buf: Vec<u8> = vec![0; n];
    let mut input = ReadInput::Start;
    loop {
        match o.read(&mut buf, input) {
            ReadAction::ReadLen => input = ReadInput::Len(read_len(inbox)),
            ReadAction::ReadData(k) => input = ReadInput::Data(read_data(inbox, k)),
            ReadAction::Return(r) => {
                return r.map(|k| {
                    buf.truncate(k);
                    buf
                })
            }
        }
    }
}

#[test]
fn known_keys() {
    let alice: [u8; 32] = [
        0x77, 0x07, 0x6d, 0x0a, 0x73, 0x18, 0xa5, 0x7d, 0x3c, 0x16, 0xc1, 0x72, 0x51, 0xb2, 0x66,
        0x45, 0xdf, 0x4c, 0x2f, 0x87, 0xeb, 0xc0, 0x99, 0x2a, 0xb1, 0x77, 0xfb, 0xa5, 0x1d, 0xb9,
        0x2c, 0x2a,
    ];
    let mut clamped = alice;
    clamped[0] &= 248;
    clamped[31] &= 127;
    clamped[31] |= 64;
    let pair = Keypair::from_secret(clamped);
    assert_eq!(pair.secret(), &clamped);
    assert_eq!(
        pair.public().as_bytes(),
        &[
            0x85, 0x20, 0xf0, 0x09, 0x89, 0x30, 0xa7, 0x54, 0x74, 0x8b, 0x7d, 0xdc, 0xb4, 0x3e,
            0xf7, 0x5a, 0x0d, 0xbf, 0x3a, 0x0d, 0x26, 0x38, 0x1a, 0xf4, 0xeb, 0xa4, 0xa9, 0x8e,
            0xaa, 0x9b, 0x4e, 0x6a,
        ]
    );
    assert_eq!(PublicKey([0; 32]).base58_encoded(), "1".repeat(32));
    let mut one = [0; 32];
    one[31] = 58;
    assert_eq!(PublicKey(one).base58_encoded(), format!("{}21", "1".repeat(31)));
}

#[test]
fn fresh_keys_belong_together_and_differ() {
    let a = Keypair::fresh();
    let b = Keypair::fresh();
    assert_ne!(a.secret(), b.secret());
    assert_eq!(Keypair::from_secret(*a.secret()).public(), a.public());
}

#[test]
fn keys_have_32_bytes() {
    let bytes: Vec<u8> = (0..32).collect();
    match montgomery::<(), Io>(&bytes) {
        Ok(k) => assert_eq!(&k.as_bytes()[..], &bytes[..]),
        Err(_) => panic!(),
    }
    for n in vec![0, 31, 33] {
        assert!(matches!(montgomery::<(), Io>(&vec![7; n]), Err(NoiseError::InvalidKey)));
    }
}

#[test]
fn addresses_without_a_key_are_not_supported() {
    let config = NoiseConfig::new(Plain, Keypair::from_secret(secret(1)));
    let addr = Multiaddr::from_components(vec![component("memory")]);
    assert!(matches!(
        config.clone().dial::<Io>(addr.clone()),
        Err(TransportError::MultiaddrNotSupported(a)) if a == addr
    ));
    let empty = Multiaddr::from_components(vec![]);
    assert!(matches!(
        config.clone().dial::<Io>(empty.clone()),
        Err(TransportError::MultiaddrNotSupported(a)) if a == empty
    ));
    assert_eq!(config.nat_traversal(&addr, &empty), Some(addr));
}

#[test]
fn errors_of_the_transport_are_told() {
    let config = NoiseConfig::new(Plain, Keypair::from_secret(secret(1)));
    let bad = Multiaddr::from_components(vec![component("bad")]);
    let empty = Multiaddr::from_components(vec![]);
    assert!(matches!(
        config.clone().listen_on::<Io>(bad.clone()),
        Err(TransportError::Other(NoiseError::Inner("cannot listen")))
    ));
    assert!(matches!(
        config.clone().listen_on::<Io>(empty.clone()),
        Err(TransportError::MultiaddrNotSupported(a)) if a == empty
    ));
    let dialed = Multiaddr::from_components(vec![component("bad"), Protocol::Curve25519([3; 32])]);
    assert!(matches!(
        config.clone().dial::<Io>(dialed),
        Err(TransportError::Other(NoiseError::Inner("cannot dial")))
    ));
    let dialed = Multiaddr::from_components(vec![Protocol::Curve25519([3; 32])]);
    assert!(matches!(
        config.clone().dial::<Io>(dialed),
        Err(TransportError::MultiaddrNotSupported(a)) if a == empty
    ));
    let addr = Multiaddr::from_components(vec![component("memory")]);
    let mut listener = match config.listen_on::<Io>(addr) {
        Ok((l, _)) => l,
        Err(_) => panic!(),
    };
    assert!(matches!(
        listener.poll::<u32, u8, &'static str, Io>(Err("broken")),
        Err(NoiseError::Inner("broken"))
    ));
    assert!(matches!(
        listener.poll::<u32, u8, &'static str, Io>(Ok(Async::NotReady)),
        Ok(Async::NotReady)
    ));
    assert!(matches!(
        listener.poll::<u32, u8, &'static str, Io>(Ok(Async::Ready(None))),
        Ok(Async::Ready(None))
    ));
}

#[test]
fn handshake_tells_the_keys() {
    let listener_key = *Keypair::from_secret(secret(2)).public();
    let dialer_key = *Keypair::from_secret(secret(1)).public();
    match shake(dialing(1, &listener_key), listening(2)) {
        (Some(Ok((k, d))), Some(Ok((m, l)))) => {
            assert_eq!(k, listener_key);
            assert_eq!(m, dialer_key);
            assert!(d.is_usable());
            assert!(l.is_usable());
        }
        _ => panic!(),
    }
}

#[test]
fn handshake_with_a_wrong_key_fails() {
    let wrong = *Keypair::from_secret(secret(3)).public();
    let (d, l) = shake(dialing(1, &wrong), listening(2));
    assert!(d.is_none());
    assert!(matches!(l, Some(Err(NoiseError::Io(IoError::InvalidData)))));
}

#[test]
fn handshake_waits_and_fails() {
    let key = *Keypair::from_secret(secret(2)).public();
    let mut d = dialing(1, &key);
    assert_eq!(d.future(), Some(&mut 32));
    assert_eq!(d.io(), None);
    assert!(matches!(d.poll::<&'static str, Io>(HandshakeInput::Start), HandshakeAction::PollInner));
    assert!(matches!(
        d.poll::<&'static str, Io>(HandshakeInput::Connected(Ok(Async::NotReady))),
        HandshakeAction::Return(Ok(Async::NotReady))
    ));
    assert!(matches!(
        d.poll::<&'static str, Io>(HandshakeInput::Connected(Ok(Async::Ready(1)))),
        HandshakeAction::WriteLen(_)
    ));
    assert_eq!(d.io(), Some(&mut 1));
    assert!(matches!(
        d.poll::<&'static str, Io>(HandshakeInput::LenWritten(Err(IoError::Other("gone")))),
        HandshakeAction::Return(Err(NoiseError::Io(IoError::Other("gone"))))
    ));
    let mut l = listening(2);
    assert!(matches!(
        l.poll::<&'static str, Io>(HandshakeInput::Connected(Err("no connection"))),
        HandshakeAction::Return(Err(NoiseError::Inner("no connection")))
    ));
}

#[test]
fn text_is_read_as_it_was_written() {
    let (mut d, mut l) = connected();
    let mut wire: VecDeque<u8> = VecDeque::new();
    assert_eq!(write(&mut d, b"hello ", &mut wire), Ok(6));
    assert_eq!(write(&mut d, b"world", &mut wire), Ok(5));
    assert_eq!(wire.len(), 0);
    assert_eq!(flush(&mut d, &mut wire), Ok(()));
    assert_eq!(wire.len(), 2 + 11 + 16);
    assert_eq!(wire[0], 0);
    assert_eq!(wire[1], 27);
    assert_eq!(read(&mut l, 4, &mut wire), Ok(b"hell".to_vec()));
    assert_eq!(read(&mut l, 100, &mut wire), Ok(b"o world".to_vec()));
    assert_eq!(read(&mut l, 100, &mut wire), Err(IoError::WouldBlock));
    assert_eq!(flush(&mut d, &mut wire), Ok(()));
    assert_eq!(wire.len(), 0);
    assert_eq!(write(&mut l, b"bye", &mut wire), Ok(3));
    assert_eq!(flush(&mut l, &mut wire), Ok(()));
    assert_eq!(read(&mut d, 3, &mut wire), Ok(b"bye".to_vec()));
    assert_eq!(*d.io(), 1);
}

#[test]
fn long_text_is_cut() {
    let (mut d, mut l) = connected();
    let text: Vec<u8> = (0..40000u32).map(|i| (i % 251) as u8).collect();
    let mut wire: VecDeque<u8> = VecDeque::new();
    let mut done = 0;
    while done < text.len() {
        let n = write(&mut d, &text[done..], &mut wire).unwrap();
        assert!(n <= 16384);
        done += n;
    }
    flush(&mut d, &mut wire).unwrap();
    let mut got: Vec<u8> = Vec::new();
    while got.len() < text.len() {
        got.extend(read(&mut l, 9000, &mut wire).unwrap());
    }
    assert_eq!(got, text);
    assert_eq!(wire.len(), 0);
}

#[test]
fn broken_message_ends_reading() {
    let (mut d, mut l) = connected();
    let mut wire: VecDeque<u8> = VecDeque::new();
    write(&mut d, b"hello", &mut wire).unwrap();
    flush(&mut d, &mut wire).unwrap();
    wire[5] ^= 1;
    assert_eq!(read(&mut l, 10, &mut wire), Err(IoError::InvalidData));
    write(&mut d, b"again", &mut wire).unwrap();
    flush(&mut d, &mut wire).unwrap();
    assert_eq!(read(&mut l, 10, &mut wire), Err(IoError::InvalidData));
}

#[test]
fn empty_message_ends_reading() {
    let (_, mut l) = connected();
    let mut wire: VecDeque<u8> = VecDeque::from(vec![0, 0, 0, 5]);
    assert_eq!(read(&mut l, 10, &mut wire), Ok(vec![]));
    assert_eq!(read(&mut l, 10, &mut wire), Ok(vec![]));
    assert_eq!(wire.len(), 2);
}

#[test]
fn end_of_the_connection() {
    let (mut d, mut l) = connected();
    let mut buf: Vec<u8> = vec![0; 4];
    assert_eq!(l.read::<Io>(&mut buf, ReadInput::Start), ReadAction::ReadLen);
    assert_eq!(l.read::<Io>(&mut buf, ReadInput::Len(Ok(20))), ReadAction::ReadData(20));
    assert_eq!(l.read::<Io>(&mut buf, ReadInput::Data(Ok(vec![]))), ReadAction::Return(Ok(0)));
    assert_eq!(l.read::<Io>(&mut buf, ReadInput::Start), ReadAction::Return(Ok(0)));
    let mut wire: VecDeque<u8> = VecDeque::new();
    write(&mut d, b"hello", &mut wire).unwrap();
    assert!(matches!(d.flush::<Io>(WriteInput::Start), WriteAction::WriteLen(21)));
    assert!(matches!(d.flush::<Io>(WriteInput::LenWritten(Ok(()))), WriteAction::WriteData(v) if v.len() == 21));
    assert_eq!(d.flush::<Io>(WriteInput::Written(Ok(0))), WriteAction::Return(Ok(())));
    assert_eq!(d.write::<Io>(b"more", WriteInput::Start), WriteAction::Return(Ok(0)));
    assert_eq!(d.flush::<Io>(WriteInput::Start), WriteAction::Return(Ok(())));
}

#[test]
fn outcomes_of_decrypting() {
    let (mut d, _) = connected();
    let mut buf: Vec<u8> = vec![0; 4];
    assert_eq!(d.read::<Io>(&mut buf, ReadInput::Start), ReadAction::ReadLen);
    assert_eq!(
        d.read(&mut buf, ReadInput::Len(Err(IoError::Other("gone")))),
        ReadAction::Return(Err(IoError::Other("gone")))
    );
    assert_eq!(d.read::<Io>(&mut buf, ReadInput::Len(Ok(17))), ReadAction::ReadData(17));
    assert_eq!(
        d.decrypted::<Io>(None, &mut buf),
        ReadAction::Return(Err(IoError::InvalidData))
    );
}

#[test]
fn sessions_are_built_or_not() {
    let own = secret(1);
    let remote = secret(2);
    match NoiseSession::built(
        snow::Builder::new(PATTERN.parse().unwrap())
            .local_private_key(&own)
            .remote_public_key(&remote)
            .build_initiator(),
    ) {
        Ok(session) => {
            assert!(session.can_read());
            assert!(session.can_write());
            assert_eq!(session.remote_static(), Some(remote.to_vec()));
        }
        Err(_) => panic!(),
    }
    let missing_key = snow::Builder::new(PATTERN.parse().unwrap())
        .local_private_key(&own)
        .build_initiator();
    assert!(missing_key.is_err());
    assert!(NoiseSession::built(missing_key).is_err());
    match NoiseSession::initiator(PATTERN.parse().unwrap(), &own, &remote) {
        Ok(session) => assert_eq!(session.remote_static(), Some(remote.to_vec())),
        Err(_) => panic!(),
    }
    match NoiseSession::responder(PATTERN.parse().unwrap(), &own) {
        Ok(session) => assert_eq!(session.remote_static(), None),
        Err(_) => panic!(),
    }
}

#[test]
fn handshake_messages_have_their_lengths() {
    let key = *Keypair::from_secret(secret(2)).public();
    let (mut d, mut l) = (dialing(1, &key), listening(2));
    let mut to_l: VecDeque<u8> = VecDeque::new();
    let mut to_d: VecDeque<u8> = VecDeque::new();
    let mut input = HandshakeInput::Start;
    while let Ok(i) = answer(d.poll(input), &mut to_d, &mut to_l) {
        input = i;
    }
    assert_eq!(to_l.len(), 2 + 96);
    assert_eq!((to_l[0], to_l[1]), (0, 96));
    let mut input = HandshakeInput::Start;
    while let Ok(i) = answer(l.poll(input), &mut to_l, &mut to_d) {
        input = i;
    }
    assert_eq!(to_d.len(), 2 + 48);
    assert_eq!((to_d[0], to_d[1]), (0, 48));
}

#[test]
fn both_sides_read_what_the_other_wrote() {
    let (mut d, mut l) = connected();
    let mut to_l: VecDeque<u8> = VecDeque::new();
    let mut to_d: VecDeque<u8> = VecDeque::new();
    let text: Vec<u8> = (0..50000u32).map(|i| (i % 241) as u8).collect();
    let (mut sent, mut back) = (0, 0);
    let (mut at_l, mut at_d): (Vec<u8>, Vec<u8>) = (Vec::new(), Vec::new());
    let mut size = 1;
    while at_l.len() < text.len() || at_d.len() < text.len() {
        size = size * 7 % 9001 + 1;
        let end = text.len().min(sent + size);
        sent += write(&mut d, &text[sent..end], &mut to_l).unwrap();
        let end = text.len().min(back + size / 2 + 1);
        back += write(&mut l, &text[back..end], &mut to_d).unwrap();
        if size % 3 == 0 || sent == text.len() {
            flush(&mut d, &mut to_l).unwrap();
        }
        if size % 5 == 0 || back == text.len() {
            flush(&mut l, &mut to_d).unwrap();
        }
        if let Ok(got) = read(&mut l, size + 3, &mut to_l) {
            at_l.extend(got);
        }
        if let Ok(got) = read(&mut d, size * 2, &mut to_d) {
            at_d.extend(got);
        }
        assert_eq!(at_l[..], text[..at_l.len()]);
        assert_eq!(at_d[..], text[..at_d.len()]);
    }
    assert_eq!((sent, back), (text.len(), text.len()));
    assert_eq!((at_l.len(), at_d.len()), (text.len(), text.len()));
}

#[test]
fn only_the_text_is_put_into_the_buffer() {
    let (mut d, mut l) = connected();
    let mut wire: VecDeque<u8> = VecDeque::new();
    write(&mut d, b"abc", &mut wire).unwrap();
    flush(&mut d, &mut wire).unwrap();
    let mut buf: Vec<u8> = vec![9; 6];
    let mut input = ReadInput::Start;
    loop {
        match l.read::<Io>(&mut buf, input) {
            ReadAction::ReadLen => input = ReadInput::Len(read_len(&mut wire)),
            ReadAction::ReadData(k) => input = ReadInput::Data(read_data(&mut wire, k)),
            ReadAction::Return(r) => {
                assert_eq!(r, Ok(3));
                break;
            }
        }
    }
    assert_eq!(buf, vec![97, 98, 99, 9, 9, 9]);
}
