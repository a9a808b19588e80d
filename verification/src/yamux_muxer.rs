//! The Yamux multiplexing protocol.

use crate::async_value::{Async, Poll};
use crate::upgrade::{InboundUpgrade, OutboundUpgrade, UpgradeInfo};
use vstd::prelude::*;
use yamux::Config as ConnectionSettings;

verus! {

/// Settings of a connection, of the crate `yamux`.
#[verifier::external_type_specification]
#[verifier::external_body]
pub struct ExSettings(ConnectionSettings);

/// The settings of a connection by their values.
pub struct Settings {
    /// How many bytes may be on their way to this side of a stream.
    pub receive_window: int,
    /// How many bytes are kept for a stream.
    pub max_buffer_size: int,
    /// How many streams there may be.
    pub max_num_streams: int,
    /// How many frames may wait to be sent.
    pub max_pending_frames: int,
    /// Is the window updated when data is read, and not when it is received?
    pub update_on_read: bool,
    /// May streams be read from once the connection is closed?
    pub read_after_close: bool,
}

/// What a configuration holds.
pub uninterp spec fn settings(config: ConnectionSettings) -> Settings;

/// `yamux::Config::default`: a window of 256 KiB, a buffer of 1 MiB, 8192 streams, 2048 frames,
/// updates when data is received, reading after the end.
#[verifier::external_body]
fn default_config() -> (r: ConnectionSettings)
    ensures
        settings(r) == (Settings {
            receive_window: 262144,
            max_buffer_size: 1048576,
            max_num_streams: 8192,
            max_pending_frames: 2048,
            update_on_read: false,
            read_after_close: true,
        }),
{
    ConnectionSettings::default()
}

/// `yamux::Config::clone`: the same settings.
#[verifier::external_body]
fn clone_config(config: &ConnectionSettings) -> (r: ConnectionSettings)
    ensures
        settings(r) == settings(*config),
{
    config.clone()
}

/// `yamux::Config::set_read_after_close`: sets this one setting.
#[verifier::external_body]
fn set_read_after_close(config: &mut ConnectionSettings, b: bool)
    ensures
        settings(*final(config)) == (Settings { read_after_close: b, ..settings(*old(config)) }),
{
    config.set_read_after_close(b);
}

/// A connection that carries several streams.
///
/// `H` stands for the connection itself, `F` for its end while it is under way.
#[derive(Debug)]
pub struct Yamux<H, F> {
    handle: H,
    close: Closing<F>,
    init: bool,
}

/// How far the end of a connection has come.
#[derive(Debug)]
pub enum Closing<F> {
    /// The connection is open.
    NotStarted,
    /// The connection is being closed.
    InProgress(F),
    /// All streams have been marked as closed.
    Done,
}

/// Why a stream could not be had.
#[derive(Debug, PartialEq, Eq)]
pub enum MuxError<E> {
    /// The connection is gone.
    ConnectionGone,
    /// There will be no more streams.
    BrokenPipe,
    /// Another error.
    Other(E),
}

/// What the end of a connection is told.
pub enum CloseInput<F, E> {
    /// Start, or go on.
    Start,
    /// The end has begun; outcome of its first poll.
    Begun(F, Poll<(), E>),
    /// Outcome of polling the end that is under way.
    Polled(Poll<(), E>),
}

/// What the end of a connection wants to be done.
pub enum CloseAction<E> {
    /// Begin to close the connection, and poll that.
    Begin,
    /// Poll the end that is under way.
    PollClose,
    /// The connection is closed, or is not yet.
    Return(Poll<(), E>),
}

impl<F> Closing<F> {
    /// The input can follow in this state.
    pub open spec fn accepts<E>(self, input: CloseInput<F, E>) -> bool {
        match input {
            CloseInput::Start => true,
            CloseInput::Begun(..) => self is NotStarted,
            CloseInput::Polled(_) => self is InProgress,
        }
    }

    /// One step of the end.
    pub open spec fn step<E>(self, input: CloseInput<F, E>) -> (Closing<F>, CloseAction<E>) {
        match input {
            CloseInput::Start => (
                self,
                match self {
                    Closing::NotStarted => CloseAction::Begin,
                    Closing::InProgress(_) => CloseAction::PollClose,
                    Closing::Done => CloseAction::Return(Ok(Async::Ready(()))),
                },
            ),
            CloseInput::Begun(f, p) => (
                match p {
                    Ok(Async::Ready(_)) => Closing::Done,
                    Ok(Async::NotReady) => Closing::InProgress(f),
                    Err(_) => self,
                },
                CloseAction::Return(p),
            ),
            CloseInput::Polled(p) => (
                if p matches Ok(Async::Ready(_)) {
                    Closing::Done
                } else {
                    self
                },
                CloseAction::Return(p),
            ),
        }
    }
}

impl<H, F> Yamux<H, F> {
    /// The connection itself.
    pub closed spec fn connection(&self) -> H {
        self.handle
    }

    /// How far the end of the connection has come.
    pub closed spec fn closing(&self) -> Closing<F> {
        self.close
    }

    /// Has the remote been heard of?
    pub closed spec fn acknowledged(&self) -> bool {
        self.init
    }

    /// A new connection, of which nothing has been heard.
    pub fn new(handle: H) -> (r: Self)
        ensures
            r.connection() == handle,
            r.closing() is NotStarted,
            !r.acknowledged(),
    {
        Yamux { handle, close: Closing::NotStarted, init: false }
    }

    /// The connection itself.
    pub fn handle(&mut self) -> (r: &mut H)
        ensures
            *r == old(self).connection(),
            final(self).connection() == *final(r),
            final(self).closing() == old(self).closing(),
            final(self).acknowledged() == old(self).acknowledged(),
    {
        &mut self.handle
    }

    /// The end of the connection, to be polled, while it is under way.
    pub fn end(&mut self) -> (r: Option<&mut F>)
        ensures
            final(self).connection() == old(self).connection(),
            final(self).acknowledged() == old(self).acknowledged(),
            match r {
                Some(f) => old(self).closing() == Closing::InProgress(*f) && final(self).closing()
                    == Closing::InProgress(*final(f)),
                None => !(old(self).closing() is InProgress) && final(self).closing() == old(
                    self
                ).closing(),
            },
    {
        match &mut self.close {
            Closing::InProgress(f) => Some(f),
            _ => None,
        }
    }

    /// What becomes of a stream that came in.
    pub fn poll_inbound<S, E>(&mut self, polled: Result<Async<Option<S>>, ()>) -> (r: Poll<
        S,
        MuxError<E>,
    >)
        ensures
            final(self).connection() == old(self).connection(),
            final(self).closing() == old(self).closing(),
            final(self).acknowledged() == (old(self).acknowledged() || r matches Ok(
                Async::Ready(_),
            )),
            r == match polled {
                Err(_) => Err::<Async<S>, MuxError<E>>(MuxError::ConnectionGone),
                Ok(Async::NotReady) => Ok(Async::NotReady),
                Ok(Async::Ready(None)) => Err(MuxError::BrokenPipe),
                Ok(Async::Ready(Some(s))) => Ok(Async::Ready(s)),
            },
    {
        match polled {
            Err(()) => Err(MuxError::ConnectionGone),
            Ok(Async::NotReady) => Ok(Async::NotReady),
            Ok(Async::Ready(None)) => Err(MuxError::BrokenPipe),
            Ok(Async::Ready(Some(stream))) => {
                self.init = true;
                Ok(Async::Ready(stream))
            },
        }
    }

    /// What becomes of a stream that is being opened.
    pub fn poll_outbound<S, E>(&self, polled: Poll<Option<S>, E>) -> (r: Poll<S, MuxError<E>>)
        ensures
            r == match polled {
                Err(e) => Err::<Async<S>, MuxError<E>>(MuxError::Other(e)),
                Ok(Async::NotReady) => Ok(Async::NotReady),
                Ok(Async::Ready(None)) => Err(MuxError::BrokenPipe),
                Ok(Async::Ready(Some(s))) => Ok(Async::Ready(s)),
            },
    {
        match polled {
            Err(e) => Err(MuxError::Other(e)),
            Ok(Async::Ready(Some(s))) => Ok(Async::Ready(s)),
            Ok(Async::Ready(None)) => Err(MuxError::BrokenPipe),
            Ok(Async::NotReady) => Ok(Async::NotReady),
        }
    }

    /// What becomes of reading from a stream.
    pub fn read_substream<E>(&mut self, polled: Poll<usize, E>) -> (r: Poll<usize, E>)
        ensures
            r == polled,
            final(self).connection() == old(self).connection(),
            final(self).closing() == old(self).closing(),
            final(self).acknowledged() == (old(self).acknowledged() || polled matches Ok(
                Async::Ready(_),
            )),
    {
        if let Ok(Async::Ready(_)) = &polled {
            self.init = true;
        }
        polled
    }

    /// Has the remote been heard of?
    pub fn is_remote_acknowledged(&self) -> (r: bool)
        ensures
            r == self.acknowledged(),
    {
        self.init
    }

    /// One step of the end of the connection.
    pub fn close<E>(&mut self, input: CloseInput<F, E>) -> (r: CloseAction<E>)
        requires
            old(self).closing().accepts(input),
        ensures
            final(self).connection() == old(self).connection(),
            final(self).acknowledged() == old(self).acknowledged(),
            (final(self).closing(), r) == old(self).closing().step(input),
    {
        match input {
            CloseInput::Start => match &self.close {
                Closing::NotStarted => CloseAction::Begin,
                Closing::InProgress(_) => CloseAction::PollClose,
                Closing::Done => CloseAction::Return(Ok(Async::Ready(()))),
            },
            CloseInput::Begun(f, polled) => {
                match &polled {
                    Ok(Async::Ready(_)) => {
                        self.close = Closing::Done;
                    },
                    Ok(Async::NotReady) => {
                        self.close = Closing::InProgress(f);
                    },
                    Err(_) => {},
                }
                CloseAction::Return(polled)
            },
            CloseInput::Polled(polled) => {
                if let Ok(Async::Ready(_)) = &polled {
                    self.close = Closing::Done;
                }
                CloseAction::Return(polled)
            },
        }
    }

    /// There is nothing to be flushed.
    pub fn flush_all<E>(&self) -> (r: Poll<(), E>)
        ensures
            r == Ok::<Async<()>, E>(Async::Ready(())),
    {
        Ok(Async::Ready(()))
    }
}

/// Once a connection is closed, to close it again does nothing and succeeds.
pub proof fn law_closed_stays_closed<F, E>(state: Closing<F>, input: CloseInput<F, E>)
    requires
        state is Done,
        state.accepts(input),
    ensures
        state.step(input).0 is Done,
        state.step(input).1 == CloseAction::<E>::Return(Ok(Async::Ready(()))),
{
}

/// A connection is closed exactly when closing it succeeds.
pub proof fn law_success_closes<F, E>(state: Closing<F>, input: CloseInput<F, E>)
    requires
        state.accepts(input),
        state.step(input).1 is Return,
    ensures
        state.step(input).0 is Done <==> (state.step(input).1 matches CloseAction::Return(
            Ok(Async::Ready(_)),
        )),
{
}

/// The side of a connection that starts it, or the other one.
#[derive(Debug, Copy, Clone, PartialEq, Eq, Structural)]
pub enum Mode {
    /// The side that dialed.
    Client,
    /// The side that listened.
    Server,
}

/// The upgrade of a connection to one that carries several streams.
#[derive(Debug)]
pub struct Config(pub ConnectionSettings);

/// What is needed to start Yamux on a connection.
#[derive(Debug)]
pub struct Setup<C> {
    /// The connection.
    pub socket: C,
    /// The settings.
    pub config: ConnectionSettings,
    /// The side.
    pub mode: Mode,
}

impl<C> Setup<C> {
    /// Starts on a connection. Streams are not read from once it is closed.
    pub fn new(socket: C, config: ConnectionSettings, mode: Mode) -> (r: Self)
        ensures
            r.socket == socket,
            settings(r.config) == (Settings { read_after_close: false, ..settings(config) }),
            r.mode == mode,
    {
        let mut config = config;
        set_read_after_close(&mut config, false);
        Setup { socket, config, mode }
    }
}

impl Config {
    /// The upgrade with the given settings.
    pub fn new(cfg: ConnectionSettings) -> (r: Self)
        ensures
            r == Config(cfg),
    {
        Config(cfg)
    }
}

impl Clone for Config {
    fn clone(&self) -> (r: Self)
        ensures
            settings(r.0) == settings(self.0),
    {
        Config(clone_config(&self.0))
    }
}

impl Default for Config {
    fn default() -> (r: Self)
        ensures
            settings(r.0) == (Settings {
                receive_window: 262144,
                max_buffer_size: 1048576,
                max_num_streams: 8192,
                max_pending_frames: 2048,
                update_on_read: false,
                read_after_close: true,
            }),
    {
        Config(default_config())
    }
}

/// `/yamux/1.0.0`
pub open spec fn yamux_name() -> Seq<u8> {
    seq![
        '/' as u8, 'y' as u8, 'a' as u8, 'm' as u8, 'u' as u8, 'x' as u8, '/' as u8, '1' as u8,
        '.' as u8, '0' as u8, '.' as u8, '0' as u8,
    ]
}

impl UpgradeInfo for Config {
    type Info = Vec<u8>;

    fn protocol_info(&self) -> (r: Vec<Vec<u8>>)
        ensures
            r@.len() == 1,
            r@[0]@ == yamux_name(),
    {
        let name: Vec<u8> = vec![
            '/' as u8, 'y' as u8, 'a' as u8, 'm' as u8, 'u' as u8, 'x' as u8, '/' as u8, '1' as u8,
            '.' as u8, '0' as u8, '.' as u8, '0' as u8,
        ];
        assert(name@ =~= yamux_name());
        vec![name]
    }
}

impl<C> InboundUpgrade<C> for Config {
    type Output = Setup<C>;

    type Error = std::io::Error;

    type Future = Setup<C>;

    fn upgrade_inbound(self, i: C, info: Vec<u8>) -> (r: Setup<C>)
        ensures
            r.socket == i,
            settings(r.config) == (Settings { read_after_close: false, ..settings(self.0) }),
            r.mode == Mode::Server,
    {
        Setup::new(i, self.0, Mode::Server)
    }
}

impl<C> OutboundUpgrade<C> for Config {
    type Output = Setup<C>;

    type Error = std::io::Error;

    type Future = Setup<C>;

    fn upgrade_outbound(self, i: C, info: Vec<u8>) -> (r: Setup<C>)
        ensures
            r.socket == i,
            settings(r.config) == (Settings { read_after_close: false, ..settings(self.0) }),
            r.mode == Mode::Client,
    {
        Setup::new(i, self.0, Mode::Client)
    }
}

/// Closing begins once, goes on while it is under way, and tells what comes of it as it is. While it
/// is not over it stays under way; if it could not be begun it can be begun again, and if it fails
/// it stays what it was.
pub proof fn law_closing_goes_on<F, E>(state: Closing<F>, f: F, p: Poll<(), E>)
    ensures
        state is NotStarted ==> state.step::<E>(CloseInput::Start) == (state, CloseAction::<E>::Begin),
        state is InProgress ==> state.step::<E>(CloseInput::Start) == (
            state,
            CloseAction::<E>::PollClose,
        ),
        state.step(CloseInput::Begun(f, p)).1 == CloseAction::<E>::Return(p),
        state.step(CloseInput::<F, E>::Polled(p)).1 == CloseAction::<E>::Return(p),
        p matches Ok(Async::NotReady) ==> state.step(CloseInput::Begun(f, p)).0
            == Closing::InProgress(f) && state.step(CloseInput::<F, E>::Polled(p)).0 == state,
        p is Err ==> state.step(CloseInput::Begun(f, p)).0 == state && state.step(
            CloseInput::<F, E>::Polled(p),
        ).0 == state,
{
}

} // verus!
