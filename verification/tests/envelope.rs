use bellovin_merritt::envelope::{read_encrypted, write_encrypted, Envelope, NONCE_LENGTH, TAG_LENGTH};

fn key(fill: u8) -> Vec<u8> {
    vec![fill; 32]
}

#[test]
fn round_trip_reproduces_the_plaintext() {
    let key = key(7);
    for length in [0usize, 1, 2, 11, 12, 16, 63, 64, 65, 1000] {
        let message: Vec<u8> = (0..length).map(|i| (i % 251) as u8).collect();
        let envelope = write_encrypted(&key, &message).expect("sealing should succeed");
        assert_eq!(envelope.nonce.len(), NONCE_LENGTH);
        assert_eq!(envelope.ciphertext.len(), message.len() + TAG_LENGTH);
        let opened = read_encrypted(&key, &envelope);
        assert_eq!(opened, Some(message));
    }
}

#[test]
fn wrong_key_yields_no_message() {
    let envelope = write_encrypted(&key(7), b"attack at dawn").expect("sealing should succeed");
    assert_eq!(read_encrypted(&key(8), &envelope), None);
}

#[test]
fn every_ciphertext_bit_flip_yields_no_message() {
    let key = key(7);
    let envelope = write_encrypted(&key, b"pay").expect("sealing should succeed");
    for byte in 0..envelope.ciphertext.len() {
        for bit in 0..8 {
            let mut tampered = Envelope {
                nonce: envelope.nonce.clone(),
                ciphertext: envelope.ciphertext.clone(),
            };
            tampered.ciphertext[byte] ^= 1 << bit;
            assert_eq!(read_encrypted(&key, &tampered), None);
        }
    }
}

#[test]
fn every_nonce_bit_flip_yields_no_message() {
    let key = key(7);
    let envelope = write_encrypted(&key, b"pay").expect("sealing should succeed");
    for byte in 0..envelope.nonce.len() {
        for bit in 0..8 {
            let mut tampered = Envelope {
                nonce: envelope.nonce.clone(),
                ciphertext: envelope.ciphertext.clone(),
            };
            tampered.nonce[byte] ^= 1 << bit;
            assert_eq!(read_encrypted(&key, &tampered), None);
        }
    }
}

#[test]
fn wrong_nonce_size_yields_no_message() {
    let key = key(7);
    let envelope = write_encrypted(&key, b"pay").expect("sealing should succeed");
    let mut short_nonce = envelope.nonce.clone();
    short_nonce.pop();
    let tampered = Envelope { nonce: short_nonce, ciphertext: envelope.ciphertext.clone() };
    assert_eq!(read_encrypted(&key, &tampered), None);
}

#[test]
fn truncated_ciphertext_yields_no_message() {
    let key = key(7);
    let envelope = write_encrypted(&key, b"attack at dawn").expect("sealing should succeed");
    let mut truncated = Envelope { nonce: envelope.nonce.clone(), ciphertext: envelope.ciphertext.clone() };
    truncated.ciphertext.pop();
    assert_eq!(read_encrypted(&key, &truncated), None);
}

#[test]
fn nonces_do_not_collide() {
    let key = key(7);
    let mut nonces: Vec<Vec<u8>> = Vec::new();
    for _ in 0..300 {
        let envelope = write_encrypted(&key, b"same message").expect("sealing should succeed");
        nonces.push(envelope.nonce);
    }
    let count = nonces.len();
    nonces.sort();
    nonces.dedup();
    assert_eq!(nonces.len(), count, "two envelopes drew the same nonce");
}
