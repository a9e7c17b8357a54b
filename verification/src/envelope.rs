//! The encrypted envelope.
//!
//! Everything key-derived crosses the wire inside an envelope: a fresh random
//! nonce and an authenticated ciphertext, each carried as one framed message.
//! Writing seals the plaintext under the given key; reading opens it again and
//! answers with "no message" — never an error — when the nonce has the wrong
//! size or authentication fails. A failed opening is an ordinary protocol
//! outcome (wrong key, tampering, truncation), deliberately indistinguishable
//! from every other failed opening.

use vstd::prelude::*;

use crate::error::Error;
use crate::random::random_bytes;

use aes_gcm_siv::aead::{Aead, KeyInit};

verus! {

/// The symmetric key size the cipher requires, in bytes.
pub const KEY_LENGTH: usize = 32;

/// The nonce size the cipher requires, in bytes.
pub const NONCE_LENGTH: usize = 12;

/// How many bytes the authentication tag adds to a sealed plaintext.
pub const TAG_LENGTH: usize = 16;

/// The longest plaintext the cipher seals (2^36 bytes).
pub const MAX_PLAINTEXT_LENGTH: u64 = 0x10_0000_0000;

/// The ciphertext AES-256-GCM-SIV produces: a function of the key, the nonce
/// and the plaintext alone, the same in every process and on every machine.
pub uninterp spec fn seal_of(key: Seq<u8>, nonce: Seq<u8>, plaintext: Seq<u8>) -> Seq<u8>;

/// What opening a ciphertext under a key and nonce yields: the plaintext, or
/// nothing where authentication fails. A function of its arguments alone.
pub uninterp spec fn open_of(key: Seq<u8>, nonce: Seq<u8>, ciphertext: Seq<u8>) -> Option<Seq<u8>>;

/// An envelope as it crosses the wire.
pub struct Envelope {
    /// The nonce, drawn fresh for this envelope and never reused under its key.
    pub nonce: Vec<u8>,
    /// The authenticated ciphertext.
    pub ciphertext: Vec<u8>,
}

/// What reading an envelope yields: nothing where the nonce has the wrong
/// size, otherwise whatever opening the ciphertext yields.
pub open spec fn spec_read_encrypted(key: Seq<u8>, nonce: Seq<u8>, ciphertext: Seq<u8>) -> Option<
    Seq<u8>,
> {
    if nonce.len() != NONCE_LENGTH {
        None
    } else {
        open_of(key, nonce, ciphertext)
    }
}

/// Relies on aes_gcm_siv::Aes256GcmSiv through aead::Aead::encrypt: sealing is
/// a function of key, nonce and plaintext; the ciphertext is the plaintext's
/// length plus a 16-byte tag; opening it under the same key and nonce gives
/// the plaintext back; and only a plaintext over 2^36 bytes is refused.
#[verifier::external_body]
fn aead_seal(key: &[u8], nonce: &[u8], plaintext: &[u8]) -> (r: Result<Vec<u8>, Error>)
    requires
        key@.len() == KEY_LENGTH,
        nonce@.len() == NONCE_LENGTH,
    ensures
        r matches Ok(c) ==> {
            &&& c@ == seal_of(key@, nonce@, plaintext@)
            &&& c@.len() == plaintext@.len() + TAG_LENGTH
            &&& open_of(key@, nonce@, c@) == Some(plaintext@)
        },
        plaintext@.len() <= MAX_PLAINTEXT_LENGTH ==> r is Ok,
{
    let cipher = match aes_gcm_siv::Aes256GcmSiv::new_from_slice(key) {
        Ok(cipher) => cipher,
        Err(_) => return Err(Error::Encrypt),
    };
    let nonce = match aes_gcm_siv::Nonce::try_from(nonce) {
        Ok(nonce) => nonce,
        Err(_) => return Err(Error::Encrypt),
    };
    match cipher.encrypt(&nonce, plaintext) {
        Ok(ciphertext) => Ok(ciphertext),
        Err(_) => Err(Error::Encrypt),
    }
}

/// Relies on aes_gcm_siv::Aes256GcmSiv through aead::Aead::decrypt: opening is
/// a function of key, nonce and ciphertext alone; it yields nothing exactly
/// where authentication fails, and a plaintext 16 bytes shorter than the
/// ciphertext where it succeeds.
#[verifier::external_body]
fn aead_open(key: &[u8], nonce: &[u8], ciphertext: &[u8]) -> (r: Option<Vec<u8>>)
    requires
        key@.len() == KEY_LENGTH,
        nonce@.len() == NONCE_LENGTH,
    ensures
        r matches Some(p) ==> {
            &&& open_of(key@, nonce@, ciphertext@) == Some(p@)
            &&& p@.len() + TAG_LENGTH == ciphertext@.len()
        },
        r is None ==> open_of(key@, nonce@, ciphertext@) is None,
{
    let cipher = match aes_gcm_siv::Aes256GcmSiv::new_from_slice(key) {
        Ok(cipher) => cipher,
        Err(_) => return None,
    };
    let nonce = match aes_gcm_siv::Nonce::try_from(nonce) {
        Ok(nonce) => nonce,
        Err(_) => return None,
    };
    cipher.decrypt(&nonce, ciphertext).ok()
}

/// Seals a message into a fresh envelope under `key`.
///
/// Law (envelope round trip): on success the envelope's ciphertext is exactly
/// the sealing of `message` under `key` and the fresh nonce, and opening it
/// with the same key reproduces `message`, whatever its length — so reading
/// the envelope back under `key` yields the message again.
pub fn write_encrypted(key: &[u8], message: &[u8]) -> (r: Result<Envelope, Error>)
    requires
        key@.len() == KEY_LENGTH,
    ensures
        r matches Ok(env) ==> {
            &&& env.nonce@.len() == NONCE_LENGTH
            &&& env.ciphertext@ == seal_of(key@, env.nonce@, message@)
            &&& env.ciphertext@.len() == message@.len() + TAG_LENGTH
            &&& spec_read_encrypted(key@, env.nonce@, env.ciphertext@) == Some(message@)
        },
        message@.len() <= MAX_PLAINTEXT_LENGTH ==> r is Ok,
{
    let nonce = random_bytes(NONCE_LENGTH);
    let ciphertext = aead_seal(key, nonce.as_slice(), message)?;
    Ok(Envelope { nonce, ciphertext })
}

/// Opens an envelope under `key`. Yields the plaintext, or nothing — never an
/// error — where the nonce has the wrong size or authentication fails for any
/// reason: wrong key, tampering or truncation all look alike.
pub fn read_encrypted(key: &[u8], envelope: &Envelope) -> (r: Option<Vec<u8>>)
    requires
        key@.len() == KEY_LENGTH,
    ensures
        r matches Some(p) ==> {
            &&& spec_read_encrypted(key@, envelope.nonce@, envelope.ciphertext@) == Some(p@)
            &&& p@.len() + TAG_LENGTH == envelope.ciphertext@.len()
        },
        r is None <==> spec_read_encrypted(key@, envelope.nonce@, envelope.ciphertext@) is None,
{
    if envelope.nonce.len() != NONCE_LENGTH {
        return None;
    }
    aead_open(key, envelope.nonce.as_slice(), envelope.ciphertext.as_slice())
}

} // verus!
