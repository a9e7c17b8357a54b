use bellovin_merritt::envelope::Envelope;
use bellovin_merritt::error::Error;
use bellovin_merritt::hash::HashConfig;
use bellovin_merritt::protocol::{
    initiator_receive_challenge, initiator_receive_echo, initiator_receive_session,
    initiator_start, responder_receive_challenge, responder_receive_confirmation,
    responder_receive_hello, responder_receive_identifier, ProtocolConfig,
};

/// Small work parameters and a small (but OAEP-sufficient) modulus, so a whole
/// handshake fits in a test.
fn test_config() -> ProtocolConfig {
    ProtocolConfig {
        hash: HashConfig { memory_kib: 8, iterations: 1, parallelism: 1 },
        modulus_bits: 1536,
    }
}

/// Runs both roles over an in-memory channel: every message one side produces
/// is handed to the other unchanged. A side that rejects simply stops sending,
/// which its peer observes as no session. Returns what each side returned.
fn run_handshake(
    identifier: &str,
    initiator_secret: &str,
    responder_secret: &str,
) -> (Option<Vec<u8>>, Option<(String, Vec<u8>)>) {
    let config = test_config();
    let (alice, hello) =
        initiator_start(identifier, initiator_secret, &config).expect("no local fault expected");
    let announced = match responder_receive_identifier(hello.identifier_message) {
        Some(announced) => announced,
        None => return (None, None),
    };
    let bob = responder_receive_hello(responder_secret, &config.hash, announced, &hello.key_envelope)
        .expect("no local fault expected");
    let (bob, session_envelope) = match bob {
        Some(step) => step,
        None => return (None, None),
    };
    let (alice, challenge_envelope) = match initiator_receive_session(alice, &session_envelope) {
        Some(step) => step,
        None => return (None, None),
    };
    let bob = responder_receive_challenge(bob, &challenge_envelope).expect("no local fault expected");
    let (bob, echo_envelope, responder_challenge_envelope) = match bob {
        Some(step) => step,
        None => return (None, None),
    };
    let alice = match initiator_receive_echo(alice, &echo_envelope) {
        Some(step) => step,
        None => return (None, None),
    };
    let (alice_key, confirmation_envelope) =
        match initiator_receive_challenge(alice, &responder_challenge_envelope)
            .expect("no local fault expected")
        {
            Some(step) => step,
            None => return (None, None),
        };
    let bob_outcome = responder_receive_confirmation(bob, &confirmation_envelope);
    (Some(alice_key), bob_outcome)
}

#[test]
fn end_to_end_success() {
    let (alice_key, bob_outcome) = run_handshake("alice", "correct horse", "correct horse");
    let alice_key = alice_key.expect("initiator should confirm");
    let (identifier, bob_key) = bob_outcome.expect("responder should confirm");
    assert_eq!(alice_key, bob_key);
    assert_eq!(identifier, "alice");
    assert_eq!(alice_key.len(), 32);
}

#[test]
fn end_to_end_wrong_password() {
    let (alice_key, bob_outcome) = run_handshake("alice", "correct horse", "wrong horse");
    assert_eq!(alice_key, None);
    assert!(bob_outcome.is_none());
}

#[test]
fn tampered_session_envelope_rejects() {
    let config = test_config();
    let (alice, hello) =
        initiator_start("alice", "correct horse", &config).expect("no local fault expected");
    let announced =
        responder_receive_identifier(hello.identifier_message).expect("identifier is text");
    let bob = responder_receive_hello("correct horse", &config.hash, announced, &hello.key_envelope)
        .expect("no local fault expected");
    let (_bob, session_envelope) = bob.expect("responder should answer the hello");
    let mut ciphertext = session_envelope.ciphertext.clone();
    ciphertext[0] ^= 1;
    let tampered = Envelope { nonce: session_envelope.nonce.clone(), ciphertext };
    assert!(initiator_receive_session(alice, &tampered).is_none());
}

#[test]
fn garbled_identifier_rejects() {
    assert!(responder_receive_identifier(vec![0xff, 0xfe, 0x80]).is_none());
    assert_eq!(
        responder_receive_identifier(b"alice".to_vec()).as_deref(),
        Some("alice")
    );
}

#[test]
fn undersized_modulus_is_an_encrypt_fault() {
    // A 512-bit modulus cannot carry a 32-byte payload under OAEP with a
    // 64-byte hash: the responder's RSA encryption is refused, a local fault.
    let config = ProtocolConfig {
        hash: HashConfig { memory_kib: 8, iterations: 1, parallelism: 1 },
        modulus_bits: 512,
    };
    let (_alice, hello) =
        initiator_start("alice", "correct horse", &config).expect("no local fault expected");
    let announced =
        responder_receive_identifier(hello.identifier_message).expect("identifier is text");
    let bob = responder_receive_hello("correct horse", &config.hash, announced, &hello.key_envelope);
    assert!(matches!(bob, Err(Error::Encrypt)));
}

#[test]
fn impossible_modulus_is_a_key_generation_fault() {
    let config = ProtocolConfig {
        hash: HashConfig { memory_kib: 8, iterations: 1, parallelism: 1 },
        modulus_bits: 4,
    };
    let outcome = initiator_start("alice", "correct horse", &config);
    assert!(matches!(outcome, Err(Error::KeyGeneration)));
}
