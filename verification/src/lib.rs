//! An augmented encrypted key exchange between two parties who share a
//! low-entropy secret. The initiator and the responder each derive a symmetric
//! key from the secret, agree on a fresh high-entropy session key carried
//! inside an ephemeral RSA envelope, and confirm it with a bidirectional
//! challenge-response, all over a length-prefixed byte stream.
//!
//! The handshake itself lives in [`protocol`], as one state machine per role:
//! a caller only moves the messages each step yields. [`framing`] gives the
//! wire format, [`envelope`] the authenticated encryption around every
//! key-derived message, [`hash`] the password-derived key, and
//! [`transport_key`] the ephemeral RSA transport.

pub mod envelope;
pub mod error;
pub mod framing;
pub mod hash;
pub mod protocol;
pub mod random;
pub mod transport_key;
