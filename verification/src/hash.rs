//! The password-derived key P.
//!
//! Both parties turn the shared secret into a 256-bit symmetric key with a
//! memory-hard hash, independently and deterministically: the same secret and
//! the same work parameters give bit-identical keys on both sides, and the key
//! itself is never transmitted.

use vstd::prelude::*;
use vstd::utf8::encode_utf8;

use crate::error::Error;

verus! {

/// How many bytes the derived key holds: the symmetric cipher's key size.
pub const DERIVED_KEY_LENGTH: usize = 32;

/// The fixed, protocol-level salt: sixteen ASCII `'0'` bytes. The salt is a
/// constant of the protocol, not per-user random material: the key must be
/// re-derivable from the secret alone, on either side, in any deployment.
/// That two independent deployments sharing a secret derive the same key is a
/// consequence the integrator must weigh, not an oversight to repair.
pub open spec fn spec_salt() -> Seq<u8> {
    Seq::new(16, |i: int| 48u8)
}

/// Builds the protocol salt.
pub fn protocol_salt() -> (r: Vec<u8>)
    ensures
        r@ == spec_salt(),
{
    let mut r: Vec<u8> = Vec::new();
    let mut i: usize = 0;
    while i < 16
        invariant
            i <= 16,
            r@ == spec_salt().subrange(0, i as int),
        decreases 16 - i,
    {
        r.push(48u8);
        i = i + 1;
        proof {
            assert(spec_salt().subrange(0, i - 1) + seq![48u8]
                =~= spec_salt().subrange(0, i as int));
        }
    }
    proof {
        assert(spec_salt().subrange(0, 16) =~= spec_salt());
    }
    r
}

/// Work parameters for the memory-hard hash. Both parties must derive with the
/// same values, so a configuration is chosen by the caller and handed in
/// explicitly rather than read from process-wide state.
#[derive(Clone, Copy, Debug, PartialEq, Eq, Structural)]
pub struct HashConfig {
    /// Memory cost, in KiB.
    pub memory_kib: u32,
    /// Number of passes over the memory.
    pub iterations: u32,
    /// Degree of parallelism.
    pub parallelism: u32,
}

impl HashConfig {
    /// The hash engine's own default work parameters.
    pub fn recommended() -> (r: HashConfig)
        ensures
            r == (HashConfig { memory_kib: 19456u32, iterations: 2u32, parallelism: 1u32 }),
    {
        HashConfig { memory_kib: 19456, iterations: 2, parallelism: 1 }
    }
}

/// The Argon2id digest of a password: a function of the password, the salt and
/// the work parameters alone, the same in every process and on every machine.
pub uninterp spec fn argon2_of(
    password: Seq<u8>,
    salt: Seq<u8>,
    memory_kib: u32,
    iterations: u32,
    parallelism: u32,
    output_len: usize,
) -> Seq<u8>;

/// The key a party derives from the shared secret: the Argon2id digest of the
/// secret's UTF-8 bytes under the protocol salt, 32 bytes long.
pub open spec fn derived_key_of(secret: Seq<char>, config: HashConfig) -> Seq<u8> {
    argon2_of(
        encode_utf8(secret),
        spec_salt(),
        config.memory_kib,
        config.iterations,
        config.parallelism,
        DERIVED_KEY_LENGTH,
    )
}

/// Inputs the hash engine refuses outright: work parameters or lengths
/// outside its documented ranges. An error on any other input is an internal
/// engine fault, such as failing to get the memory the parameters ask for.
pub open spec fn spec_hash_refused(
    password: Seq<u8>,
    salt: Seq<u8>,
    config: HashConfig,
    output_len: usize,
) -> bool {
    ||| password.len() > 0xFFFF_FFFF
    ||| salt.len() < 8
    ||| salt.len() > 0xFFFF_FFFF
    ||| config.memory_kib < 8
    ||| config.memory_kib < 8 * config.parallelism
    ||| config.iterations < 1
    ||| config.parallelism < 1
    ||| config.parallelism > 0xFFFFFF
    ||| output_len < 4
    ||| output_len > 0xFFFF_FFFF
}

/// Relies on argon2::Argon2::hash_password_into (Argon2id, version 0x13): the
/// digest is a function of the password, the salt and the work parameters
/// alone, and fills the whole output buffer. Parameters or lengths outside the
/// engine's documented ranges are always refused; it never fails on the
/// password's value, and every fault comes back as the hash error.
#[verifier::external_body]
fn argon2_hash(password: &[u8], salt: &[u8], config: &HashConfig, output_len: usize) -> (r: Result<
    Vec<u8>,
    Error,
>)
    ensures
        r matches Ok(k) ==> {
            &&& k@ == argon2_of(
                password@,
                salt@,
                config.memory_kib,
                config.iterations,
                config.parallelism,
                output_len,
            )
            &&& k@.len() == output_len
        },
        spec_hash_refused(password@, salt@, *config, output_len) ==> r is Err,
        r matches Err(e) ==> e == Error::Hash,
{
    let params = match argon2::Params::new(
        config.memory_kib,
        config.iterations,
        config.parallelism,
        Some(output_len),
    ) {
        Ok(params) => params,
        Err(_) => return Err(Error::Hash),
    };
    let engine = argon2::Argon2::new(argon2::Algorithm::Argon2id, argon2::Version::V0x13, params);
    let mut key = vec![0u8; output_len];
    match engine.hash_password_into(password, salt, &mut key) {
        Ok(()) => Ok(key),
        Err(_) => Err(Error::Hash),
    }
}

/// Derives the symmetric key P from the shared secret. Deterministic: on
/// success the key is exactly `derived_key_of(secret, config)`, so two parties
/// holding the same secret and configuration hold the same key. Fails only on
/// an engine fault, never because of the secret's value.
pub fn hash_password(secret: &str, config: &HashConfig) -> (r: Result<Vec<u8>, Error>)
    ensures
        r matches Ok(k) ==> k@ == derived_key_of(secret@, *config) && k@.len() == DERIVED_KEY_LENGTH,
        spec_hash_refused(encode_utf8(secret@), spec_salt(), *config, DERIVED_KEY_LENGTH)
            ==> r is Err,
        r matches Err(e) ==> e == Error::Hash,
{
    let salt = protocol_salt();
    argon2_hash(secret.as_bytes(), salt.as_slice(), config, DERIVED_KEY_LENGTH)
}

/// Law: key derivation is deterministic. Whatever two calls computed from the
/// same secret under the same configuration, they computed the same key.
pub proof fn lemma_derive_key_deterministic(
    secret: Seq<char>,
    config: HashConfig,
    k1: Seq<u8>,
    k2: Seq<u8>,
)
    requires
        k1 == derived_key_of(secret, config),
        k2 == derived_key_of(secret, config),
    ensures
        k1 == k2,
{
}

} // verus!
