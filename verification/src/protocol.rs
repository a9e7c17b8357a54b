//! The five-step handshake.
//!
//! Roles are asymmetric. The initiator contributes an ephemeral asymmetric
//! channel; the responder contributes the session's entropy; mutual
//! challenge-response under the freshly agreed session secret R confirms, in
//! both directions, that each side derived the same key — which no party
//! lacking the password-derived key P could have forced.
//!
//! Each side is a state machine: every step consumes the state, takes the
//! peer's message, and yields the next state together with the messages to
//! send. The caller only moves bytes; every decision stands here. States
//! progress strictly forward, and any check that fails ends in the single
//! rejected outcome — `None` — which never tells which check it was: a wrong
//! password, a tampered envelope and a malformed message all look alike.

use vstd::prelude::*;
use vstd::slice::slice_to_vec;
use vstd::utf8::{decode_utf8, encode_utf8, valid_utf8};

use crate::envelope::{
    read_encrypted, spec_read_encrypted, write_encrypted, Envelope, KEY_LENGTH,
    MAX_PLAINTEXT_LENGTH, NONCE_LENGTH,
};
use crate::error::Error;
use crate::hash::{derived_key_of, hash_password, HashConfig};
use crate::random::random_bytes;
use crate::transport_key;

verus! {

/// How many bytes each confirmation challenge holds.
pub const CHALLENGE_LENGTH: usize = 64;

/// The modulus size, in bits, of the recommended transport key pair.
pub const DEFAULT_MODULUS_BITS: usize = 4096;

/// What both sides must agree on beforehand, next to the secret itself: the
/// hash work parameters (the derived keys must match bit for bit) and the
/// transport modulus size the initiator generates.
#[derive(Clone, Copy, Debug, PartialEq, Eq, Structural)]
pub struct ProtocolConfig {
    /// Work parameters of the password hash; identical on both sides.
    pub hash: HashConfig,
    /// Modulus size of the initiator's ephemeral transport key pair, in bits.
    pub modulus_bits: usize,
}

impl ProtocolConfig {
    /// The recommended parameters: the hash engine's defaults and a 4096-bit
    /// transport modulus.
    pub fn recommended() -> (r: ProtocolConfig)
        ensures
            r.hash == (HashConfig { memory_kib: 19456u32, iterations: 2u32, parallelism: 1u32 }),
            r.modulus_bits == DEFAULT_MODULUS_BITS,
    {
        ProtocolConfig { hash: HashConfig::recommended(), modulus_bits: DEFAULT_MODULUS_BITS }
    }
}

/// Compares two byte strings by content.
pub(crate) fn bytes_equal(a: &[u8], b: &[u8]) -> (r: bool)
    ensures
        r == (a@ == b@),
{
    if a.len() != b.len() {
        return false;
    }
    let mut i: usize = 0;
    while i < a.len()
        invariant
            i <= a@.len(),
            a@.len() == b@.len(),
            forall|j: int| 0 <= j < i ==> a@[j] == b@[j],
        decreases a@.len() - i,
    {
        if a[i] != b[i] {
            return false;
        }
        i = i + 1;
    }
    proof {
        assert(a@ =~= b@);
    }
    true
}

/// Relies on String::from_utf8: a string exactly where the bytes are valid
/// UTF-8, holding their decoding; nothing where they are not.
#[verifier::external_body]
fn bytes_to_string(bytes: Vec<u8>) -> (r: Option<String>)
    ensures
        r matches Some(s) ==> valid_utf8(bytes@) && s@ == decode_utf8(bytes@),
        r is None ==> !valid_utf8(bytes@),
{
    String::from_utf8(bytes).ok()
}

/// What the initiator sends first: its identifier in clear, then the serialized
/// transport public key sealed under P.
pub struct InitiatorHello {
    /// The identifier's UTF-8 bytes, sent in clear.
    pub identifier_message: Vec<u8>,
    /// The serialized transport public key E_A, sealed under P.
    pub key_envelope: Envelope,
}

/// The initiator between its hello and the responder's session envelope. Holds
/// P and the transport private key D_A, which never leaves this side.
pub struct InitiatorAwaitingSession {
    derived_key: Vec<u8>,
    private_key: rsa::RsaPrivateKey,
}

impl InitiatorAwaitingSession {
    /// P, the password-derived key this side works under.
    pub closed spec fn derived_key(&self) -> Seq<u8> {
        self.derived_key@
    }

    /// The state's internal invariant: P has the cipher's key size.
    pub open spec fn wf(&self) -> bool {
        self.derived_key().len() == KEY_LENGTH
    }
}

/// The initiator after sending its challenge under R: waiting for the echo
/// that proves the responder holds the same R.
pub struct InitiatorAwaitingEcho {
    session_key: Vec<u8>,
    challenge: Vec<u8>,
}

impl InitiatorAwaitingEcho {
    /// R, the session secret recovered from the responder's envelope.
    pub closed spec fn session_key(&self) -> Seq<u8> {
        self.session_key@
    }

    /// The challenge this side sent and expects echoed.
    pub closed spec fn challenge(&self) -> Seq<u8> {
        self.challenge@
    }

    /// The state's internal invariant.
    pub open spec fn wf(&self) -> bool {
        self.session_key().len() == KEY_LENGTH && self.challenge().len() == CHALLENGE_LENGTH
    }
}

/// The initiator after verifying the echo: waiting for the responder's own
/// challenge.
pub struct InitiatorAwaitingChallenge {
    session_key: Vec<u8>,
}

impl InitiatorAwaitingChallenge {
    /// R, the agreed session secret.
    pub closed spec fn session_key(&self) -> Seq<u8> {
        self.session_key@
    }

    /// The state's internal invariant.
    pub open spec fn wf(&self) -> bool {
        self.session_key().len() == KEY_LENGTH
    }
}

/// Step one of the initiator: derive P from the secret, generate the transport
/// key pair, and build the hello — the identifier in clear and the serialized
/// public key sealed under P. Only local faults fail here; nothing of the peer
/// has been seen yet.
pub fn initiator_start(identifier: &str, secret: &str, config: &ProtocolConfig) -> (r: Result<
    (InitiatorAwaitingSession, InitiatorHello),
    Error,
>)
    ensures
        r matches Ok((state, hello)) ==> {
            &&& state.wf()
            &&& state.derived_key() == derived_key_of(secret@, config.hash)
            &&& hello.identifier_message@ == encode_utf8(identifier@)
            &&& hello.key_envelope.nonce@.len() == NONCE_LENGTH
            &&& spec_read_encrypted(
                state.derived_key(),
                hello.key_envelope.nonce@,
                hello.key_envelope.ciphertext@,
            ) is Some
        },
{
    let derived_key = hash_password(secret, &config.hash)?;
    let private_key = transport_key::generate_private_key(config.modulus_bits)?;
    let public_key = transport_key::public_key_of(&private_key);
    let public_key_bytes = transport_key::serialize_public_key(&public_key)?;
    let key_envelope = write_encrypted(derived_key.as_slice(), public_key_bytes.as_slice())?;
    let identifier_message = slice_to_vec(identifier.as_bytes());
    Ok((
        InitiatorAwaitingSession { derived_key, private_key },
        InitiatorHello { identifier_message, key_envelope },
    ))
}

/// Installs the session secret R that the responder's envelope carried. Takes
/// whatever RSA decryption yielded: exactly a payload of the cipher's key size
/// becomes the session key, and the first challenge goes out under it; no
/// payload, or one of the wrong size, is the single rejected outcome.
pub fn initiator_accept_session(decrypted: Option<Vec<u8>>) -> (r: Option<
    (InitiatorAwaitingEcho, Envelope),
>)
    ensures
        r is Some <==> (decrypted matches Some(k) && k@.len() == KEY_LENGTH),
        r matches Some((state, env)) ==> {
            &&& decrypted matches Some(k) && state.session_key() == k@
            &&& state.wf()
            &&& env.nonce@.len() == NONCE_LENGTH
            &&& spec_read_encrypted(state.session_key(), env.nonce@, env.ciphertext@)
                == Some(state.challenge())
        },
{
    let session_key = match decrypted {
        Some(key) => key,
        None => return None,
    };
    if session_key.len() != KEY_LENGTH {
        return None;
    }
    let challenge = random_bytes(CHALLENGE_LENGTH);
    let env = match write_encrypted(session_key.as_slice(), challenge.as_slice()) {
        Ok(env) => env,
        Err(_) => unreached(),
    };
    Some((InitiatorAwaitingEcho { session_key, challenge }, env))
}

/// Step two and three of the initiator: open the responder's envelope under P,
/// recover R with D_A, and if R has the cipher's key size, send the first
/// challenge under R. A failed envelope, a failed RSA decryption and a
/// wrong-sized R all end in the same rejected outcome.
pub fn initiator_receive_session(state: InitiatorAwaitingSession, envelope: &Envelope) -> (r:
    Option<(InitiatorAwaitingEcho, Envelope)>)
    requires
        state.wf(),
    ensures
        spec_read_encrypted(state.derived_key(), envelope.nonce@, envelope.ciphertext@) is None
            ==> r is None,
        r matches Some((next, env)) ==> {
            &&& next.wf()
            &&& env.nonce@.len() == NONCE_LENGTH
            &&& spec_read_encrypted(next.session_key(), env.nonce@, env.ciphertext@)
                == Some(next.challenge())
        },
{
    let rsa_ciphertext = match read_encrypted(state.derived_key.as_slice(), envelope) {
        Some(c) => c,
        None => return None,
    };
    let decrypted = transport_key::decrypt(&state.private_key, rsa_ciphertext.as_slice());
    initiator_accept_session(decrypted)
}

/// Step four of the initiator, first half: the responder's echo must open
/// under R to exactly the challenge this side sent. Anything else — a failed
/// envelope or a different payload — is the rejected outcome, and detects a
/// responder that does not hold the same R.
pub fn initiator_receive_echo(state: InitiatorAwaitingEcho, envelope: &Envelope) -> (r: Option<
    InitiatorAwaitingChallenge,
>)
    requires
        state.wf(),
    ensures
        r is Some <==> spec_read_encrypted(state.session_key(), envelope.nonce@, envelope.ciphertext@)
            == Some(state.challenge()),
        r matches Some(next) ==> next.wf() && next.session_key() == state.session_key(),
{
    let echoed = match read_encrypted(state.session_key.as_slice(), envelope) {
        Some(p) => p,
        None => return None,
    };
    if bytes_equal(echoed.as_slice(), state.challenge.as_slice()) {
        Some(InitiatorAwaitingChallenge { session_key: state.session_key })
    } else {
        None
    }
}

/// Steps four (second half) and five of the initiator: open the responder's
/// own challenge under R, echo it back under R, and return R as the session
/// key — the exchange is confirmed on this side.
pub fn initiator_receive_challenge(state: InitiatorAwaitingChallenge, envelope: &Envelope) -> (r:
    Result<Option<(Vec<u8>, Envelope)>, Error>)
    requires
        state.wf(),
    ensures
        spec_read_encrypted(state.session_key(), envelope.nonce@, envelope.ciphertext@) is None
            ==> (r matches Ok(inner) ==> inner is None),
        spec_read_encrypted(state.session_key(), envelope.nonce@, envelope.ciphertext@) is Some
            ==> !(r matches Ok(None)),
        spec_read_encrypted(state.session_key(), envelope.nonce@, envelope.ciphertext@)
            matches Some(challenge) && challenge.len() <= MAX_PLAINTEXT_LENGTH ==> r matches Ok(
            Some(_),
        ),
        r matches Ok(Some((key, echo))) ==> {
            &&& key@ == state.session_key()
            &&& key@.len() == KEY_LENGTH
            &&& echo.nonce@.len() == NONCE_LENGTH
            &&& spec_read_encrypted(state.session_key(), envelope.nonce@, envelope.ciphertext@)
                matches Some(challenge) && spec_read_encrypted(
                state.session_key(),
                echo.nonce@,
                echo.ciphertext@,
            ) == Some(challenge)
        },
{
    let challenge = match read_encrypted(state.session_key.as_slice(), envelope) {
        Some(c) => c,
        None => return Ok(None),
    };
    let echo = write_encrypted(state.session_key.as_slice(), challenge.as_slice())?;
    Ok(Some((state.session_key, echo)))
}

/// The responder after sending the session envelope: waiting for the
/// initiator's challenge under R.
pub struct ResponderAwaitingChallenge {
    identifier: String,
    session_key: Vec<u8>,
}

impl ResponderAwaitingChallenge {
    /// The identifier the initiator announced in clear.
    pub closed spec fn identifier(&self) -> Seq<char> {
        self.identifier@
    }

    /// R, the session secret this side drew.
    pub closed spec fn session_key(&self) -> Seq<u8> {
        self.session_key@
    }

    /// The state's internal invariant.
    pub open spec fn wf(&self) -> bool {
        self.session_key().len() == KEY_LENGTH
    }
}

/// The responder after echoing the initiator's challenge and sending its own:
/// waiting for that challenge to come back.
pub struct ResponderAwaitingConfirmation {
    identifier: String,
    session_key: Vec<u8>,
    challenge: Vec<u8>,
}

impl ResponderAwaitingConfirmation {
    /// The identifier the initiator announced in clear.
    pub closed spec fn identifier(&self) -> Seq<char> {
        self.identifier@
    }

    /// R, the session secret this side drew.
    pub closed spec fn session_key(&self) -> Seq<u8> {
        self.session_key@
    }

    /// The challenge this side sent and expects echoed.
    pub closed spec fn challenge(&self) -> Seq<u8> {
        self.challenge@
    }

    /// The state's internal invariant.
    pub open spec fn wf(&self) -> bool {
        self.session_key().len() == KEY_LENGTH && self.challenge().len() == CHALLENGE_LENGTH
    }
}

/// Step one of the responder, first half: the identifier announced in clear
/// must decode as text; anything else is the rejected outcome, before any
/// further message is looked at.
pub fn responder_receive_identifier(identifier_message: Vec<u8>) -> (r: Option<String>)
    ensures
        r is Some <==> valid_utf8(identifier_message@),
        r matches Some(identifier) ==> identifier@ == decode_utf8(identifier_message@),
{
    bytes_to_string(identifier_message)
}

/// Steps one (second half) and two of the responder: derive P from the
/// locally supplied secret, open the transport-key envelope under P and decode
/// E_A; then draw a fresh session secret R, encrypt it under E_A and seal that
/// ciphertext under P. An envelope that does not open and a key that does not
/// decode end in the same rejected outcome.
pub fn responder_receive_hello(
    secret: &str,
    config: &HashConfig,
    identifier: String,
    envelope: &Envelope,
) -> (r: Result<Option<(ResponderAwaitingChallenge, Envelope)>, Error>)
    ensures
        spec_read_encrypted(
            derived_key_of(secret@, *config),
            envelope.nonce@,
            envelope.ciphertext@,
        ) is None ==> (r matches Ok(inner) ==> inner is None),
        r matches Ok(Some((state, env))) ==> {
            &&& state.identifier() == identifier@
            &&& state.wf()
            &&& spec_read_encrypted(
                derived_key_of(secret@, *config),
                envelope.nonce@,
                envelope.ciphertext@,
            ) is Some
            &&& env.nonce@.len() == NONCE_LENGTH
            &&& spec_read_encrypted(derived_key_of(secret@, *config), env.nonce@, env.ciphertext@)
                is Some
        },
{
    let derived_key = hash_password(secret, config)?;
    let key_bytes = match read_encrypted(derived_key.as_slice(), envelope) {
        Some(b) => b,
        None => return Ok(None),
    };
    let public_key = match transport_key::deserialize_public_key(key_bytes.as_slice()) {
        Some(k) => k,
        None => return Ok(None),
    };
    let session_key = random_bytes(KEY_LENGTH);
    let rsa_ciphertext = match transport_key::encrypt(&public_key, session_key.as_slice()) {
        Ok(c) => c,
        Err(fault) => return Err(fault),
    };
    let env = write_encrypted(derived_key.as_slice(), rsa_ciphertext.as_slice())?;
    Ok(Some((ResponderAwaitingChallenge { identifier, session_key }, env)))
}

/// Steps three and four of the responder: open the initiator's challenge under
/// R, echo it back under R — proving possession of R — and send a fresh
/// challenge of this side's own under R.
pub fn responder_receive_challenge(state: ResponderAwaitingChallenge, envelope: &Envelope) -> (r:
    Result<Option<(ResponderAwaitingConfirmation, Envelope, Envelope)>, Error>)
    requires
        state.wf(),
    ensures
        spec_read_encrypted(state.session_key(), envelope.nonce@, envelope.ciphertext@) is None
            ==> (r matches Ok(inner) ==> inner is None),
        spec_read_encrypted(state.session_key(), envelope.nonce@, envelope.ciphertext@) is Some
            ==> !(r matches Ok(None)),
        spec_read_encrypted(state.session_key(), envelope.nonce@, envelope.ciphertext@)
            matches Some(challenge) && challenge.len() <= MAX_PLAINTEXT_LENGTH ==> r matches Ok(
            Some(_),
        ),
        r matches Ok(Some((next, echo, challenge_env))) ==> {
            &&& next.wf()
            &&& next.session_key() == state.session_key()
            &&& next.identifier() == state.identifier()
            &&& echo.nonce@.len() == NONCE_LENGTH
            &&& challenge_env.nonce@.len() == NONCE_LENGTH
            &&& spec_read_encrypted(state.session_key(), envelope.nonce@, envelope.ciphertext@)
                matches Some(challenge) && spec_read_encrypted(
                state.session_key(),
                echo.nonce@,
                echo.ciphertext@,
            ) == Some(challenge)
            &&& spec_read_encrypted(
                state.session_key(),
                challenge_env.nonce@,
                challenge_env.ciphertext@,
            ) == Some(next.challenge())
        },
{
    let challenge_a = match read_encrypted(state.session_key.as_slice(), envelope) {
        Some(c) => c,
        None => return Ok(None),
    };
    let echo = write_encrypted(state.session_key.as_slice(), challenge_a.as_slice())?;
    let challenge_b = random_bytes(CHALLENGE_LENGTH);
    let challenge_env = match write_encrypted(state.session_key.as_slice(), challenge_b.as_slice()) {
        Ok(env) => env,
        Err(_) => unreached(),
    };
    Ok(Some((
        ResponderAwaitingConfirmation {
            identifier: state.identifier,
            session_key: state.session_key,
            challenge: challenge_b,
        },
        echo,
        challenge_env,
    )))
}

/// Step five of the responder: the initiator's echo must open under R to
/// exactly the challenge this side sent. Then the exchange is confirmed, and
/// yields the initiator's identifier together with R as the session key.
pub fn responder_receive_confirmation(
    state: ResponderAwaitingConfirmation,
    envelope: &Envelope,
) -> (r: Option<(String, Vec<u8>)>)
    requires
        state.wf(),
    ensures
        r is Some <==> spec_read_encrypted(state.session_key(), envelope.nonce@, envelope.ciphertext@)
            == Some(state.challenge()),
        r matches Some((identifier, key)) ==> identifier@ == state.identifier() && key@
            == state.session_key() && key@.len() == KEY_LENGTH,
{
    let echoed = match read_encrypted(state.session_key.as_slice(), envelope) {
        Some(p) => p,
        None => return None,
    };
    if bytes_equal(echoed.as_slice(), state.challenge.as_slice()) {
        Some((state.identifier, state.session_key))
    } else {
        None
    }
}

} // verus!
