//! Keys.

use crate::noise::output::IoError;
use vstd::prelude::*;

verus! {

/// How many bytes a key has.
pub const KEY_LEN: usize = 32;

/// The text that stands for bytes in the base of 58 digits, of the crate `bs58`.
pub uninterp spec fn base58(bytes: Seq<u8>) -> Seq<char>;

/// The product of a scalar and the base point of the curve, of the crate `curve25519-dalek`.
pub uninterp spec fn basepoint_times(scalar: Seq<u8>) -> Seq<u8>;

/// Calls `bs58::encode(..).into_string()`. The text depends on the bytes alone.
#[verifier::external_body]
fn base58_encode(bytes: &[u8; 32]) -> (r: String)
    ensures
        r@ == base58(bytes@),
{
    bs58::encode(&bytes[..]).into_string()
}

/// Calls `curve25519_dalek::scalar::Scalar::random` with `rand::thread_rng`. Nothing can be said
/// of a random number.
#[verifier::external_body]
fn random_scalar() -> (r: [u8; 32]) {
    curve25519_dalek::scalar::Scalar::random(&mut rand::thread_rng()).to_bytes()
}

/// Multiplies a scalar of the crate `curve25519-dalek` with its constant `X25519_BASEPOINT`. The
/// bytes are reduced to a scalar first; bytes of a scalar stay as they are. The product depends on
/// the bytes alone.
#[verifier::external_body]
fn multiply_basepoint(scalar: &[u8; 32]) -> (r: [u8; 32])
    ensures
        r@ == basepoint_times(scalar@),
{
    let s = curve25519_dalek::scalar::Scalar::from_bytes_mod_order(*scalar);
    (&s * &curve25519_dalek::constants::X25519_BASEPOINT).to_bytes()
}

/// A public key.
#[derive(Clone, Copy, Debug, PartialEq, Eq)]
pub struct PublicKey(pub [u8; 32]);

impl PublicKey {
    /// The key as text.
    pub fn base58_encoded(&self) -> (r: String)
        ensures
            r@ == base58(self.0@),
    {
        base58_encode(&self.0)
    }

    /// The key as bytes.
    pub fn as_bytes(&self) -> (r: &[u8; 32])
        ensures
            r@ == self.0@,
    {
        &self.0
    }
}

/// A secret key and its public key.
pub struct Keypair {
    secret: [u8; 32],
    public: PublicKey,
}

impl Keypair {
    /// The secret key.
    pub closed spec fn spec_secret(&self) -> Seq<u8> {
        self.secret@
    }

    /// The public key.
    pub closed spec fn spec_public(&self) -> PublicKey {
        self.public
    }

    /// The public key belongs to the secret key.
    pub open spec fn wf(&self) -> bool {
        self.spec_public().0@ == basepoint_times(self.spec_secret())
    }

    /// A new pair of keys.
    pub fn fresh() -> (r: Self)
        ensures
            r.wf(),
    {
        Self::from_secret(random_scalar())
    }

    /// The pair of keys with the given secret key.
    pub fn from_secret(secret: [u8; 32]) -> (r: Self)
        ensures
            r.wf(),
            r.spec_secret() == secret@,
    {
        let public = PublicKey(multiply_basepoint(&secret));
        Keypair { secret, public }
    }

    /// The secret key.
    pub fn secret(&self) -> (r: &[u8; 32])
        ensures
            r@ == self.spec_secret(),
    {
        &self.secret
    }

    /// The public key.
    pub fn public(&self) -> (r: &PublicKey)
        ensures
            *r == self.spec_public(),
    {
        &self.public
    }
}

/// Why a connection could not be encrypted.
pub enum NoiseError<E, I> {
    /// Reading or writing failed.
    Io(IoError<I>),
    /// The session failed.
    Noise(snow::SnowError),
    /// The other side's public key is missing or has a wrong length.
    InvalidKey,
    /// The connection underneath could not be made.
    Inner(E),
}

/// The public key with the given bytes.
pub fn montgomery<E, I>(bytes: &[u8]) -> (r: Result<PublicKey, NoiseError<E, I>>)
    ensures
        bytes@.len() == KEY_LEN ==> (r matches Ok(k) && k.0@ == bytes@),
        bytes@.len() != KEY_LEN ==> (r matches Err(NoiseError::InvalidKey)),
{
    if bytes.len() != KEY_LEN {
        return Err(NoiseError::InvalidKey);
    }
    let mut key: [u8; 32] = [0u8; 32];
    let mut i: usize = 0;
    while i < 32
        invariant
            i <= 32,
            bytes@.len() == 32,
            forall|j: int| 0 <= j < i ==> key@[j] == bytes@[j],
        decreases 32 - i,
    {
        key[i] = bytes[i];
        i += 1;
    }
    assert(key@ =~= bytes@);
    Ok(PublicKey(key))
}

} // verus!
