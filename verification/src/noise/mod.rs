//! Connections that are encrypted with the Noise protocol.

pub mod handshake;
pub mod keys;
pub mod laws;
pub mod output;
pub mod progress;
pub mod run;
pub mod session;

use crate::address::{Multiaddr, Protocol};
use crate::async_value::{Async, Poll};
use crate::noise::handshake::{HandshakeModel, NoiseDialFuture, NoiseListenFuture};
use crate::noise::keys::{Keypair, NoiseError};
use crate::noise::session::{clone_params, parse_pattern, NoiseSession, SessionModel, PATTERN};
use crate::transport::try_transport::{TransportError, TryTransport};
use std::sync::Arc;
use vstd::pervasive::unreached;
use vstd::prelude::*;

verus! {

/// Puts the Noise protocol on the connections of another transport.
pub struct NoiseConfig<T> {
    keypair: Arc<Keypair>,
    params: snow::params::NoiseParams,
    transport: T,
}

/// The error of the transport underneath, as an error of [`NoiseConfig`].
pub open spec fn noise_error<E, I>(e: TransportError<E>) -> TransportError<NoiseError<E, I>> {
    match e {
        TransportError::MultiaddrNotSupported(a) => TransportError::MultiaddrNotSupported(a),
        TransportError::Other(e) => TransportError::Other(NoiseError::Inner(e)),
    }
}

fn convert_error<E, I>(e: TransportError<E>) -> (r: TransportError<NoiseError<E, I>>)
    ensures
        r == noise_error::<E, I>(e),
{
    match e {
        TransportError::MultiaddrNotSupported(a) => TransportError::MultiaddrNotSupported(a),
        TransportError::Other(e) => TransportError::Other(NoiseError::Inner(e)),
    }
}

impl<T: Clone> Clone for NoiseConfig<T> {
    fn clone(&self) -> (r: Self)
        ensures
            r.spec_secret() == self.spec_secret(),
            cloned(self.spec_transport(), r.spec_transport()),
            self.wf() ==> r.wf(),
    {
        NoiseConfig {
            keypair: self.keypair.clone(),
            params: clone_params(&self.params),
            transport: self.transport.clone(),
        }
    }
}

impl<T> NoiseConfig<T> {
    /// The transport underneath.
    pub closed spec fn spec_transport(&self) -> T {
        self.transport
    }

    /// The secret key of this side.
    pub closed spec fn spec_secret(&self) -> Seq<u8> {
        self.keypair.spec_secret()
    }

    /// The parameters stand for the pattern.
    pub closed spec fn wf(&self) -> bool {
        crate::noise::session::pattern_name(self.params) == PATTERN@
    }

    /// Puts the Noise protocol on the connections of a transport.
    pub fn new(transport: T, kp: Keypair) -> (r: Self)
        ensures
            r.wf(),
            r.spec_transport() == transport,
            r.spec_secret() == kp.spec_secret(),
    {
        let params: snow::params::NoiseParams = match parse_pattern(PATTERN) {
            Ok(params) => params,
            Err(_) => unreached(),
        };
        NoiseConfig { keypair: Arc::new(kp), params, transport }
    }
}

/// The outcome of dialing, once the transport underneath has dialed and a session was made or
/// could not be made.
pub fn dialed<F, T, E, I>(dial: F, session: Result<NoiseSession, snow::SnowError>) -> (r: Result<
    NoiseDialFuture<F, T>,
    TransportError<NoiseError<E, I>>,
>)
    requires
        session matches Ok(s) ==> s.wf() && (s@.remote matches Some(key) && key.len()
            == crate::noise::keys::KEY_LEN && s@ == SessionModel::fresh(
            true,
            s@.secret,
            Some(key),
        )),
    ensures
        match session {
            Ok(s) => r matches Ok(f) && f.wf() && f@ == HandshakeModel::<F, T>::Init(dial, s@)
                && Some(f.spec_key()) == s@.remote,
            Err(e) => r == Err::<NoiseDialFuture<F, T>, TransportError<NoiseError<E, I>>>(
                TransportError::Other(NoiseError::Noise(e)),
            ),
        },
{
    match session {
        Ok(session) => Ok(NoiseDialFuture::new(dial, session)),
        Err(e) => Err(TransportError::Other(NoiseError::Noise(e))),
    }
}

impl<T: TryTransport> NoiseConfig<T> {
    /// Starts listening on an address.
    pub fn listen_on<I>(self, addr: Multiaddr) -> (r: Result<
        (NoiseListener<T::Listener>, Multiaddr),
        TransportError<NoiseError<T::Error, I>>,
    >)
        requires
            self.wf(),
        ensures
            exists|inner: Result<(T::Listener, Multiaddr), TransportError<T::Error>>| #[trigger]
                call_ensures(T::listen_on, (self.spec_transport(), addr), inner) && match inner {
                    Ok((listener, a)) => r matches Ok((l, b)) && b == a && l.wf()
                        && l.spec_listener() == listener && l.spec_secret() == self.spec_secret(),
                    Err(e) => r == Err::<
                        (NoiseListener<T::Listener>, Multiaddr),
                        TransportError<NoiseError<T::Error, I>>,
                    >(noise_error(e)),
                },
    {
        match self.transport.listen_on(addr) {
            Ok((listener, addr)) => Ok(
                (NoiseListener { listener, keypair: self.keypair, params: self.params }, addr),
            ),
            Err(e) => Err(convert_error(e)),
        }
    }

    /// Dials an address whose last component is the public key of the other side.
    pub fn dial<I>(self, addr: Multiaddr) -> (r: Result<
        NoiseDialFuture<T::Dial, T::Output>,
        TransportError<NoiseError<T::Error, I>>,
    >)
        requires
            self.wf(),
        ensures
            if addr@.len() > 0 && addr@.last() is Curve25519 {
                exists|a: Multiaddr, inner: Result<T::Dial, TransportError<T::Error>>|
                    #![trigger call_ensures(T::dial, (self.spec_transport(), a), inner)]
                    a@ == addr@.drop_last() && call_ensures(
                        T::dial,
                        (self.spec_transport(), a),
                        inner,
                    ) && match inner {
                        Ok(dial) => match r {
                            Ok(f) => f.wf() && f@ == HandshakeModel::<T::Dial, T::Output>::Init(
                                dial,
                                SessionModel::fresh(
                                    true,
                                    self.spec_secret(),
                                    Some(addr@.last()->Curve25519_0@),
                                ),
                            ) && f.spec_key() == addr@.last()->Curve25519_0@,
                            Err(e) => e matches TransportError::Other(NoiseError::Noise(_)),
                        },
                        Err(e) => r == Err::<
                            NoiseDialFuture<T::Dial, T::Output>,
                            TransportError<NoiseError<T::Error, I>>,
                        >(noise_error(e)),
                    }
            } else {
                r matches Err(TransportError::MultiaddrNotSupported(a)) && a@ == addr@
            },
    {
        let mut addr = addr;
        let ghost all = addr@;
        let pubkey: [u8; 32] = match addr.pop() {
            Some(Protocol::Curve25519(key)) => key,
            Some(proto) => {
                addr.append(proto);
                assert(addr@ =~= all);
                return Err(TransportError::MultiaddrNotSupported(addr));
            },
            None => {
                return Err(TransportError::MultiaddrNotSupported(addr));
            },
        };
        let ghost rest = addr;
        let inner = self.transport.dial(addr);
        assert(call_ensures(T::dial, (self.spec_transport(), rest), inner));
        let dial = match inner {
            Ok(dial) => dial,
            Err(e) => {
                return Err(convert_error(e));
            },
        };
        let session = NoiseSession::initiator(
            clone_params(&self.params),
            self.keypair.secret(),
            &pubkey,
        );
        dialed(dial, session)
    }

    /// Translates an address that a remote has observed into one of ours.
    pub fn nat_traversal(&self, server: &Multiaddr, observed: &Multiaddr) -> (r: Option<Multiaddr>)
        ensures
            call_ensures(T::nat_traversal, (&self.spec_transport(), server, observed), r),
    {
        self.transport.nat_traversal(server, observed)
    }
}

/// Puts the Noise protocol on incoming connections.
pub struct NoiseListener<T> {
    listener: T,
    keypair: Arc<Keypair>,
    params: snow::params::NoiseParams,
}

/// The incoming connection, once a session was made or could not be made.
pub fn accepted<F, T, E, I>(
    future: F,
    addr: Multiaddr,
    session: Result<NoiseSession, snow::SnowError>,
) -> (r: Poll<Option<(NoiseListenFuture<F, T>, Multiaddr)>, NoiseError<E, I>>)
    requires
        session matches Ok(s) ==> s.wf() && s@ == SessionModel::fresh(false, s@.secret, None),
    ensures
        match session {
            Ok(s) => r matches Ok(Async::Ready(Some((f, a)))) && a == addr && f.wf() && f@
                == HandshakeModel::<F, T>::Init(future, s@),
            Err(e) => r matches Err(NoiseError::Noise(f)) && e == f,
        },
{
    match session {
        Ok(session) => Ok(Async::Ready(Some((NoiseListenFuture::new(future, session), addr)))),
        Err(e) => Err(NoiseError::Noise(e)),
    }
}

impl<S> NoiseListener<S> {
    /// The stream of connections underneath.
    pub closed spec fn spec_listener(&self) -> S {
        self.listener
    }

    /// The secret key of this side.
    pub closed spec fn spec_secret(&self) -> Seq<u8> {
        self.keypair.spec_secret()
    }

    /// The parameters stand for the pattern.
    pub closed spec fn wf(&self) -> bool {
        crate::noise::session::pattern_name(self.params) == PATTERN@
    }

    /// The stream of connections underneath.
    pub fn listener(&mut self) -> (r: &mut S)
        requires
            old(self).wf(),
        ensures
            *r == old(self).spec_listener(),
            final(self).spec_listener() == *final(r),
            final(self).spec_secret() == old(self).spec_secret(),
            final(self).wf(),
    {
        &mut self.listener
    }

    /// Makes an encrypted connection of the next connection underneath.
    pub fn poll<F, T, E, I>(&mut self, polled: Poll<Option<(F, Multiaddr)>, E>) -> (r: Poll<
        Option<(NoiseListenFuture<F, T>, Multiaddr)>,
        NoiseError<E, I>,
    >)
        requires
            old(self).wf(),
        ensures
            *final(self) == *old(self),
            match polled {
                Ok(Async::Ready(Some((future, addr)))) => match r {
                    Ok(Async::Ready(Some((f, a)))) => a == addr && f.wf() && f@
                        == HandshakeModel::<F, T>::Init(
                        future,
                        SessionModel::fresh(false, old(self).spec_secret(), None),
                    ),
                    Err(NoiseError::Noise(_)) => true,
                    _ => false,
                },
                Ok(Async::Ready(None)) => r matches Ok(Async::Ready(None)),
                Ok(Async::NotReady) => r matches Ok(Async::NotReady),
                Err(e) => r matches Err(NoiseError::Inner(f)) && e == f,
            },
    {
        match polled {
            Ok(Async::Ready(Some((future, addr)))) => {
                let session = NoiseSession::responder(
                    clone_params(&self.params),
                    self.keypair.secret(),
                );
                accepted(future, addr, session)
            },
            Ok(Async::Ready(None)) => Ok(Async::Ready(None)),
            Ok(Async::NotReady) => Ok(Async::NotReady),
            Err(e) => Err(NoiseError::Inner(e)),
        }
    }
}

/// An address that the transport underneath does not support is not supported; another error of it
/// is told as an error of it.
pub proof fn law_errors_of_the_transport_are_told<E, I>(e: TransportError<E>)
    ensures
        match noise_error::<E, I>(e) {
            TransportError::MultiaddrNotSupported(a) => e
                == TransportError::<E>::MultiaddrNotSupported(a),
            TransportError::Other(NoiseError::Inner(f)) => e == TransportError::<E>::Other(f),
            _ => false,
        },
{
}

} // verus!
