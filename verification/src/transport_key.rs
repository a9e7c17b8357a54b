//! The ephemeral transport key pair.
//!
//! The initiator generates a fresh RSA key pair per session. The public half
//! E_A crosses the wire (sealed under P, in a fixed versionless binary
//! encoding); the private half D_A never leaves the initiator and is dropped
//! with the session. The responder uses E_A once, to carry the session secret
//! R back under OAEP padding. RSA decryption fails softly — "no message", not
//! an error — so a wrong key and a corrupted ciphertext cannot be told apart
//! and no padding oracle arises.

use vstd::prelude::*;

use crate::error::Error;

verus! {

#[verifier::external_type_specification]
#[verifier::external_body]
pub struct ExRsaPrivateKey(rsa::RsaPrivateKey);

#[verifier::external_type_specification]
#[verifier::external_body]
pub struct ExRsaPublicKey(rsa::RsaPublicKey);

/// Relies on rsa::RsaPrivateKey::new with the thread-local secure generator: a
/// fresh private key of the asked-for modulus size, or a fault of the
/// generator or the parameters. Nothing is assumed about the key's value.
#[verifier::external_body]
pub(crate) fn generate_private_key(modulus_bits: usize) -> Result<rsa::RsaPrivateKey, Error> {
    match rsa::RsaPrivateKey::new(&mut rand::thread_rng(), modulus_bits) {
        Ok(key) => Ok(key),
        Err(_) => Err(Error::KeyGeneration),
    }
}

/// Relies on rsa::RsaPublicKey::from: the public half of a private key.
#[verifier::external_body]
pub(crate) fn public_key_of(private: &rsa::RsaPrivateKey) -> rsa::RsaPublicKey {
    rsa::RsaPublicKey::from(private)
}

/// Relies on bincode::serialize: the fixed, versionless binary encoding of the
/// public key that crosses the wire.
#[verifier::external_body]
pub(crate) fn serialize_public_key(key: &rsa::RsaPublicKey) -> Result<Vec<u8>, Error> {
    match bincode::serialize(key) {
        Ok(bytes) => Ok(bytes),
        Err(_) => Err(Error::Serialize),
    }
}

/// Relies on bincode::deserialize: the exact inverse of the encoding above;
/// bytes that do not decode as a public key yield nothing.
#[verifier::external_body]
pub(crate) fn deserialize_public_key(bytes: &[u8]) -> Option<rsa::RsaPublicKey> {
    bincode::deserialize(bytes).ok()
}

/// Relies on rsa::RsaPublicKey::encrypt with OAEP over SHA3-512 and the
/// thread-local secure generator. The ciphertext is randomized, so nothing is
/// assumed of its value; a payload too long for the modulus is refused.
#[verifier::external_body]
pub(crate) fn encrypt(key: &rsa::RsaPublicKey, payload: &[u8]) -> Result<Vec<u8>, Error> {
    let padding = rsa::Oaep::new::<sha3::Sha3_512>();
    match key.encrypt(&mut rand::thread_rng(), padding, payload) {
        Ok(ciphertext) => Ok(ciphertext),
        Err(_) => Err(Error::Encrypt),
    }
}

/// Relies on rsa::RsaPrivateKey::decrypt with OAEP over SHA3-512: the payload
/// that was encrypted under this key's public half, or nothing on any padding
/// or format mismatch, whatever its reason.
#[verifier::external_body]
pub(crate) fn decrypt(key: &rsa::RsaPrivateKey, ciphertext: &[u8]) -> Option<Vec<u8>> {
    let padding = rsa::Oaep::new::<sha3::Sha3_512>();
    key.decrypt(padding, ciphertext).ok()
}

} // verus!
