//! Noise sessions.

use vstd::prelude::*;

verus! {

/// The handshake pattern, with its primitives.
pub const PATTERN: &'static str = "Noise_IK_25519_ChaChaPoly_BLAKE2s";

/// Parameters of a session, of the crate `snow`.
#[verifier::external_type_specification]
#[verifier::external_body]
pub struct ExNoiseParams(snow::params::NoiseParams);

/// A session, of the crate `snow`.
#[verifier::external_type_specification]
#[verifier::external_body]
pub struct ExSession(snow::Session);

/// What can go wrong in a session, of the crate `snow`.
#[verifier::external_type_specification]
#[verifier::external_body]
pub struct ExSnowError(snow::SnowError);

/// How many messages the handshake has.
pub const HANDSHAKE_MESSAGES: usize = 2;

/// How many bytes encryption adds at least.
pub const TAG_LEN: usize = 16;

/// How many bytes the first message of the handshake adds: two public keys, one of them encrypted,
/// and a tag.
pub const FIRST_LEN: usize = 96;

/// How many bytes the second message of the handshake adds: a public key and a tag.
pub const SECOND_LEN: usize = 48;

/// How many bytes a message of the handshake adds at most.
pub const OVERHEAD: usize = 144;

/// What is known of a session.
#[verifier::ext_equal]
pub struct SessionModel {
    /// Does this side send the first message?
    pub initiator: bool,
    /// The secret key of this side.
    pub secret: Seq<u8>,
    /// How many messages of the handshake have been written or read.
    pub position: nat,
    /// Is the handshake over and the session ready to carry data?
    pub transport: bool,
    /// The public key of the other side.
    pub remote: Option<Seq<u8>>,
    /// All that was handed to the session to be decrypted.
    pub received: Seq<Seq<u8>>,
    /// What each of those was decrypted to; `None` if it could not be decrypted.
    pub texts: Seq<Option<Seq<u8>>>,
    /// All that was handed to the session to be encrypted.
    pub sent: Seq<Seq<u8>>,
    /// What each of those was encrypted to; `None` if it could not be encrypted.
    pub messages: Seq<Option<Seq<u8>>>,
}

/// What was put at the start of a buffer, if it went well.
pub open spec fn outcome(r: Result<usize, snow::SnowError>, buf: Seq<u8>) -> Option<Seq<u8>> {
    match r {
        Ok(n) => Some(buf.take(n as int)),
        Err(_) => None,
    }
}

impl SessionModel {
    /// A session in which nothing has happened.
    pub open spec fn fresh(initiator: bool, secret: Seq<u8>, remote: Option<Seq<u8>>) -> Self {
        SessionModel {
            initiator,
            secret,
            position: 0,
            transport: false,
            remote,
            received: Seq::empty(),
            texts: Seq::empty(),
            sent: Seq::empty(),
            messages: Seq::empty(),
        }
    }

    /// Where the handshake stands after a message that was good or bad.
    pub open spec fn next_position(self, good: bool) -> nat {
        if good && !self.transport {
            self.position + 1
        } else {
            self.position
        }
    }

    /// There is a message to be read.
    pub open spec fn can_read(self) -> bool {
        (self.transport || self.position < HANDSHAKE_MESSAGES) && self.received.len() < u64::MAX
    }

    /// This side's next message is the first of the handshake.
    pub open spec fn begins(self) -> bool {
        !self.transport && self.initiator && self.position == 0
    }

    /// This side's next message is the second of the handshake.
    pub open spec fn answers(self) -> bool {
        !self.transport && !self.initiator && self.position == 1
    }

    /// Another message can be written.
    pub open spec fn can_write(self) -> bool {
        self.sent.len() < u64::MAX
    }
}

/// What a session of the crate `snow` holds.
#[verifier::ext_equal]
pub struct SnowModel {
    /// Does this side send the first message?
    pub initiator: bool,
    /// The secret key of this side, as long as the handshake lasts.
    pub secret: Option<Seq<u8>>,
    /// How many messages of the handshake have been written or read; all of them, once the session
    /// carries data.
    pub position: nat,
    /// Does the session carry data?
    pub transport: bool,
    /// The public key of the other side.
    pub remote: Option<Seq<u8>>,
    /// The nonce of the next message that is read, once the session carries data; before that 0.
    pub receiving: nat,
    /// The nonce of the next message that is written, once the session carries data; before that
    /// 0.
    pub sending: nat,
}

impl SnowModel {
    /// A session in which nothing has happened.
    pub open spec fn fresh(initiator: bool, secret: Seq<u8>, remote: Option<Seq<u8>>) -> Self {
        SnowModel {
            initiator,
            secret: Some(secret),
            position: 0,
            transport: false,
            remote,
            receiving: 0,
            sending: 0,
        }
    }

    /// There is a message to be read.
    pub open spec fn can_read(self) -> bool {
        if self.transport {
            self.receiving < u64::MAX
        } else {
            self.position < HANDSHAKE_MESSAGES
        }
    }

    /// Another message can be written.
    pub open spec fn can_write(self) -> bool {
        self.transport ==> self.sending < u64::MAX
    }

    /// Where the handshake stands after a message that was good or bad.
    pub open spec fn next_position(self, good: bool) -> nat {
        if good && !self.transport {
            self.position + 1
        } else {
            self.position
        }
    }

    /// This side's next message is the first of the handshake.
    pub open spec fn begins(self) -> bool {
        !self.transport && self.initiator && self.position == 0
    }

    /// This side's next message is the second of the handshake.
    pub open spec fn answers(self) -> bool {
        !self.transport && !self.initiator && self.position == 1
    }
}

/// What a session of the crate `snow` holds.
pub uninterp spec fn session_model(session: snow::Session) -> SnowModel;

/// The name of the pattern that parameters of the crate `snow` stand for.
pub uninterp spec fn pattern_name(params: snow::params::NoiseParams) -> Seq<char>;

/// Calls the `FromStr` of `snow::params::NoiseParams` on the name of a pattern that the crate knows:
/// it is parsed, and the parameters keep the name. There are names on which the call panics, so it
/// is made on this one only.
#[verifier::external_body]
pub(crate) fn parse_pattern(name: &str) -> (r: Result<snow::params::NoiseParams, snow::SnowError>)
    requires
        name@ == PATTERN@,
    ensures
        r is Ok,
        r matches Ok(params) ==> pattern_name(params) == name@,
{
    name.parse()
}

/// Clones `snow::params::NoiseParams`: the clone stands for the same pattern.
#[verifier::external_body]
pub(crate) fn clone_params(params: &snow::params::NoiseParams) -> (r: snow::params::NoiseParams)
    ensures
        pattern_name(r) == pattern_name(*params),
{
    params.clone()
}

/// Calls `snow::Builder::build_initiator` with both keys. The session is at its start and knows
/// the public key that it was given. It may fail, for want of random numbers.
#[verifier::external_body]
fn build_initiator(
    params: snow::params::NoiseParams,
    secret: &[u8; 32],
    remote: &[u8; 32],
) -> (r: Result<snow::Session, snow::SnowError>)
    requires
        pattern_name(params) == PATTERN@,
    ensures
        r matches Ok(s) ==> session_model(s) == SnowModel::fresh(true, secret@, Some(remote@)),
{
    snow::Builder::new(params).local_private_key(secret).remote_public_key(remote).build_initiator()
}

/// Calls `snow::Builder::build_responder` with the secret key. The session is at its start and
/// knows no public key. It may fail, for want of random numbers.
#[verifier::external_body]
fn build_responder(params: snow::params::NoiseParams, secret: &[u8; 32]) -> (r: Result<
    snow::Session,
    snow::SnowError,
>)
    requires
        pattern_name(params) == PATTERN@,
    ensures
        r matches Ok(s) ==> session_model(s) == SnowModel::fresh(false, secret@, None),
{
    snow::Builder::new(params).local_private_key(secret).build_responder()
}

/// Calls `snow::Session::read_message`. What is decrypted, and whether it can be, rests on keys
/// made of random numbers, so nothing is said of it. Of all outcomes holds: a good message moves
/// the handshake on; the text fits into the buffer and is shorter than the message by a tag; the
/// other side's public key becomes known with the first message that a responder reads, and stays
/// as it is in a session that carries data and with the answer that an initiator reads; in a
/// session that carries data the nonce goes on by one with a good message, and by one or not at all
/// with a bad one.
#[verifier::external_body]
fn read_message(session: &mut snow::Session, input: &[u8], payload: &mut Vec<u8>) -> (r: Result<
    usize,
    snow::SnowError,
>)
    requires
        session_model(*old(session)).can_read(),
    ensures
        session_model(*final(session)) == (SnowModel {
            position: session_model(*old(session)).next_position(r is Ok),
            remote: session_model(*final(session)).remote,
            receiving: session_model(*final(session)).receiving,
            ..session_model(*old(session))
        }),
        session_model(*old(session)).transport || (session_model(*old(session)).initiator
            && session_model(*old(session)).position == 1) ==> session_model(*final(session)).remote
            == session_model(*old(session)).remote,
        r is Ok && !session_model(*old(session)).transport && !session_model(*old(session)).initiator
            && session_model(*old(session)).position == 0 ==> (session_model(
            *final(session),
        ).remote matches Some(k) && k.len() == 32),
        if !session_model(*old(session)).transport {
            session_model(*final(session)).receiving == session_model(*old(session)).receiving
        } else if r is Ok {
            session_model(*final(session)).receiving == session_model(*old(session)).receiving + 1
        } else {
            session_model(*old(session)).receiving <= session_model(*final(session)).receiving
                <= session_model(*old(session)).receiving + 1
        },
        r matches Ok(n) ==> n + TAG_LEN <= input@.len() && n <= old(payload)@.len(),
        final(payload)@.len() == old(payload)@.len(),
{
    session.read_message(input, payload.as_mut_slice())
}

/// Calls `snow::Session::write_message`. What the message looks like rests on keys made of random
/// numbers, so nothing is said of it. Of all outcomes holds: a good message moves the handshake on;
/// it fits into the buffer and is longer than the text by at least a tag; a session that carries
/// data encrypts every text that is not too long, adds exactly a tag, and its nonce goes on by one;
/// so does an initiator with the first message of the handshake and a responder, once it has read
/// that, with the second, which add the keys that they carry and know no nonce; a responder has
/// nothing to write before it has read a message.
#[verifier::external_body]
fn write_message(session: &mut snow::Session, payload: &[u8], output: &mut Vec<u8>) -> (r: Result<
    usize,
    snow::SnowError,
>)
    requires
        session_model(*old(session)).can_write(),
        payload@.len() + OVERHEAD <= old(output)@.len(),
    ensures
        session_model(*final(session)) == (SnowModel {
            position: session_model(*old(session)).next_position(r is Ok),
            sending: if session_model(*old(session)).transport && r is Ok {
                session_model(*old(session)).sending + 1
            } else {
                session_model(*old(session)).sending
            },
            ..session_model(*old(session))
        }),
        session_model(*old(session)).transport ==> if payload@.len() + TAG_LEN <= u16::MAX {
            r matches Ok(n) && n == payload@.len() + TAG_LEN
        } else {
            r is Err
        },
        !session_model(*old(session)).transport && !session_model(*old(session)).initiator
            && session_model(*old(session)).position == 0 ==> r is Err,
        r matches Ok(n) ==> payload@.len() + TAG_LEN <= n <= old(output)@.len(),
        session_model(*old(session)).begins() ==> if payload@.len() + FIRST_LEN <= u16::MAX {
            r matches Ok(n) && n == payload@.len() + FIRST_LEN
        } else {
            r is Err
        },
        session_model(*old(session)).answers() ==> if payload@.len() + SECOND_LEN <= u16::MAX {
            r matches Ok(n) && n == payload@.len() + SECOND_LEN
        } else {
            r is Err
        },
        final(output)@.len() == old(output)@.len(),
{
    session.write_message(payload, output.as_mut_slice())
}

/// Calls `snow::Session::into_transport_mode`, which succeeds exactly if the handshake is over.
/// The secret key is given up then, and both nonces start at 0. A session that carries data already
/// stays as it is.
#[verifier::external_body]
fn into_transport_mode(session: snow::Session) -> (r: Result<snow::Session, snow::SnowError>)
    ensures
        r is Ok <==> session_model(session).transport || session_model(session).position
            == HANDSHAKE_MESSAGES,
        r matches Ok(s) ==> session_model(s) == if session_model(session).transport {
            session_model(session)
        } else {
            SnowModel { transport: true, secret: None, receiving: 0, sending: 0, ..session_model(session) }
        },
{
    session.into_transport_mode()
}

/// Calls `snow::Session::get_remote_static`, which gives the public key of the other side as far
/// as it is known.
#[verifier::external_body]
fn get_remote_static(session: &snow::Session) -> (r: Option<Vec<u8>>)
    ensures
        match session_model(*session).remote {
            Some(k) => r matches Some(v) && v@ == k,
            None => r is None,
        },
{
    session.get_remote_static().map(|k| k.to_vec())
}

/// What has happened in a session.
pub struct History {
    /// The secret key of this side.
    pub secret: Seq<u8>,
    /// All that was handed to the session to be decrypted.
    pub received: Seq<Seq<u8>>,
    /// What each of those was decrypted to; `None` if it could not be decrypted.
    pub texts: Seq<Option<Seq<u8>>>,
    /// All that was handed to the session to be encrypted.
    pub sent: Seq<Seq<u8>>,
    /// What each of those was encrypted to; `None` if it could not be encrypted.
    pub messages: Seq<Option<Seq<u8>>>,
}

/// A session that counts its messages.
pub struct NoiseSession {
    session: snow::Session,
    received: u64,
    sent: u64,
    history: Ghost<History>,
}

impl View for NoiseSession {
    type V = SessionModel;

    closed spec fn view(&self) -> SessionModel {
        let m = session_model(self.session);
        SessionModel {
            initiator: m.initiator,
            secret: self.history@.secret,
            position: m.position,
            transport: m.transport,
            remote: m.remote,
            received: self.history@.received,
            texts: self.history@.texts,
            sent: self.history@.sent,
            messages: self.history@.messages,
        }
    }
}

impl NoiseSession {
    /// The counts are right, and no nonce has gone beyond them.
    pub closed spec fn wf(&self) -> bool {
        &&& self.received == self@.received.len()
        &&& self.sent == self@.sent.len()
        &&& session_model(self.session).receiving <= self.received
        &&& session_model(self.session).sending <= self.sent
    }

    /// Counts the messages of a session in which nothing has happened, once it was built or could
    /// not be built.
    pub fn built(session: Result<snow::Session, snow::SnowError>) -> (r: Result<
        Self,
        snow::SnowError,
    >)
        requires
            session matches Ok(s) ==> (session_model(s).secret matches Some(secret)
                && session_model(s) == SnowModel::fresh(
                session_model(s).initiator,
                secret,
                session_model(s).remote,
            )),
        ensures
            match session {
                Ok(s) => r matches Ok(n) && n.wf() && n@ == SessionModel::fresh(
                    session_model(s).initiator,
                    session_model(s).secret->Some_0,
                    session_model(s).remote,
                ),
                Err(e) => r == Err::<Self, snow::SnowError>(e),
            },
    {
        match session {
            Ok(session) => {
                let ghost history = History {
                    secret: session_model(session).secret->Some_0,
                    received: Seq::empty(),
                    texts: Seq::empty(),
                    sent: Seq::empty(),
                    messages: Seq::empty(),
                };
                Ok(NoiseSession { session, received: 0, sent: 0, history: Ghost(history) })
            },
            Err(e) => Err(e),
        }
    }

    /// The session of the side that sends the first message. Whether it can be built rests on the
    /// machine's random numbers.
    pub fn initiator(
        params: snow::params::NoiseParams,
        secret: &[u8; 32],
        remote: &[u8; 32],
    ) -> (r: Result<Self, snow::SnowError>)
        requires
            pattern_name(params) == PATTERN@,
        ensures
            r matches Ok(s) ==> s.wf() && s@ == SessionModel::fresh(true, secret@, Some(remote@)),
    {
        Self::built(build_initiator(params, secret, remote))
    }

    /// The session of the side that receives the first message. Whether it can be built rests on
    /// the machine's random numbers.
    pub fn responder(params: snow::params::NoiseParams, secret: &[u8; 32]) -> (r: Result<
        Self,
        snow::SnowError,
    >)
        requires
            pattern_name(params) == PATTERN@,
        ensures
            r matches Ok(s) ==> s.wf() && s@ == SessionModel::fresh(false, secret@, None),
    {
        Self::built(build_responder(params, secret))
    }

    /// Can another message be read, once the handshake is over?
    pub fn can_read(&self) -> (r: bool)
        requires
            self.wf(),
        ensures
            r == (self@.received.len() < u64::MAX),
    {
        self.received < u64::MAX
    }

    /// Can another message be written?
    pub fn can_write(&self) -> (r: bool)
        requires
            self.wf(),
        ensures
            r == self@.can_write(),
    {
        self.sent < u64::MAX
    }

    /// Decrypts a message into `payload` and returns the length of the text.
    pub fn read_message(&mut self, input: &[u8], payload: &mut Vec<u8>) -> (r: Result<
        usize,
        snow::SnowError,
    >)
        requires
            old(self).wf(),
            old(self)@.can_read(),
        ensures
            final(self).wf(),
            final(self)@ == (SessionModel {
                position: old(self)@.next_position(r is Ok),
                received: old(self)@.received.push(input@),
                texts: old(self)@.texts.push(outcome(r, final(payload)@)),
                remote: final(self)@.remote,
                ..old(self)@
            }),
            old(self)@.transport || (old(self)@.initiator && old(self)@.position == 1)
                ==> final(self)@.remote == old(self)@.remote,
            r is Ok && !old(self)@.transport && !old(self)@.initiator && old(self)@.position == 0
                ==> (final(self)@.remote matches Some(k) && k.len() == 32),
            r matches Ok(n) ==> n + TAG_LEN <= input@.len() && n <= old(payload)@.len(),
            final(payload)@.len() == old(payload)@.len(),
    {
        let r = read_message(&mut self.session, input, payload);
        self.received += 1;
        proof {
            let h = self.history@;
            self.history = Ghost(
                History {
                    received: h.received.push(input@),
                    texts: h.texts.push(outcome(r, payload@)),
                    ..h
                },
            );
        }
        r
    }

    /// Encrypts a text into `output` and returns the length of the message.
    pub fn write_message(&mut self, payload: &[u8], output: &mut Vec<u8>) -> (r: Result<
        usize,
        snow::SnowError,
    >)
        requires
            old(self).wf(),
            old(self)@.can_write(),
            payload@.len() + OVERHEAD <= old(output)@.len(),
        ensures
            final(self).wf(),
            final(self)@ == (SessionModel {
                position: old(self)@.next_position(r is Ok),
                sent: old(self)@.sent.push(payload@),
                messages: old(self)@.messages.push(outcome(r, final(output)@)),
                ..old(self)@
            }),
            old(self)@.transport && payload@.len() + TAG_LEN <= u16::MAX ==> r is Ok,
            !old(self)@.transport && !old(self)@.initiator && old(self)@.position == 0 ==> r is Err,
            r matches Ok(n) ==> payload@.len() + TAG_LEN <= n <= old(output)@.len(),
            old(self)@.transport ==> (r matches Ok(n) ==> n == payload@.len() + TAG_LEN),
            old(self)@.begins() ==> if payload@.len() + FIRST_LEN <= u16::MAX {
                r matches Ok(n) && n == payload@.len() + FIRST_LEN
            } else {
                r is Err
            },
            old(self)@.answers() ==> if payload@.len() + SECOND_LEN <= u16::MAX {
                r matches Ok(n) && n == payload@.len() + SECOND_LEN
            } else {
                r is Err
            },
            final(output)@.len() == old(output)@.len(),
    {
        let r = write_message(&mut self.session, payload, output);
        self.sent += 1;
        proof {
            let h = self.history@;
            self.history = Ghost(
                History {
                    sent: h.sent.push(payload@),
                    messages: h.messages.push(outcome(r, output@)),
                    ..h
                },
            );
        }
        r
    }

    /// Makes the session ready to carry data, once the handshake is over.
    pub fn into_transport_mode(self) -> (r: Result<Self, snow::SnowError>)
        requires
            self.wf(),
        ensures
            r is Ok <==> self@.transport || self@.position == HANDSHAKE_MESSAGES,
            r matches Ok(s) ==> s.wf() && s@ == (SessionModel { transport: true, ..self@ }),
    {
        match into_transport_mode(self.session) {
            Ok(session) => Ok(
                NoiseSession {
                    session,
                    received: self.received,
                    sent: self.sent,
                    history: self.history,
                },
            ),
            Err(e) => Err(e),
        }
    }

    /// The public key of the other side, as far as it is known.
    pub fn remote_static(&self) -> (r: Option<Vec<u8>>)
        ensures
            match self@.remote {
                Some(k) => r matches Some(v) && v@ == k,
                None => r is None,
            },
    {
        get_remote_static(&self.session)
    }
}

} // verus!
