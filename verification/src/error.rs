//! Hard faults of the exchange.
//!
//! Only local, environmental failures surface as an [`Error`]: the hash engine,
//! key generation, key encoding or the cipher refusing to work. A wrong
//! password, a tampered message or any other misbehaviour of the peer is never
//! an error; those fold into the single soft "no session" outcome, so that the
//! reason a handshake was rejected cannot be told apart from outside.

use vstd::prelude::*;

verus! {

/// A local fault that stops the handshake. Nothing the peer sends can raise
/// one of these; they describe this machine, not the network.
#[derive(Clone, Copy, Debug, PartialEq, Eq, Structural)]
pub enum Error {
    /// The password hash engine refused its parameters or its buffers.
    Hash,
    /// Fresh transport key material could not be generated.
    KeyGeneration,
    /// The transport public key could not be encoded for the wire.
    Serialize,
    /// A cipher refused to encrypt.
    Encrypt,
}

impl Error {
    /// A short description of the fault.
    pub fn message(&self) -> (r: &'static str)
        ensures
            r@ == self.spec_message(),
    {
        match self {
            Error::Hash => "password hashing failed",
            Error::KeyGeneration => "transport key generation failed",
            Error::Serialize => "transport key encoding failed",
            Error::Encrypt => "encryption failed",
        }
    }

    /// The description [`Error::message`] gives for each fault.
    pub open spec fn spec_message(self) -> Seq<char> {
        match self {
            Error::Hash => "password hashing failed"@,
            Error::KeyGeneration => "transport key generation failed"@,
            Error::Serialize => "transport key encoding failed"@,
            Error::Encrypt => "encryption failed"@,
        }
    }
}

#[verifier::external_type_specification]
#[verifier::external_body]
pub struct ExIoError(std::io::Error);

/// Relies on std::io::Error::new: wraps any message as an I/O error of kind
/// `Other`.
#[verifier::external_body]
fn other_io_error(message: &'static str) -> std::io::Error {
    std::io::Error::new(std::io::ErrorKind::Other, message)
}

/// Turns a fault of this library into a `std::io::Error`, for callers that
/// drive the exchange over a real stream and speak `std::io::Result`.
pub fn into_io_error(error: Error) -> std::io::Error {
    other_io_error(error.message())
}

} // verus!
