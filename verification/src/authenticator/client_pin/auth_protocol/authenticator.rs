//! The authenticator's side of the PIN/UV auth protocol.

use crate::authenticator::client_pin::auth_protocol::Version;
use vstd::prelude::*;

verus! {

/// What an authenticator's cryptographic core offers to the commands that
/// run on it. Every operation is synchronous and is tried once.
///
/// The specification functions name what the methods compute from the core
/// as it stands. An implementation says what they are; the defaults say
/// nothing.
pub trait Authenticator {
    type Error;

    /// The version of the protocol that this core speaks.
    const VERSION: Version;

    /// The public half of the key agreement key pair.
    open spec fn public_key(&self) -> cosey::PublicKey {
        arbitrary()
    }

    /// The secret that the key pair shares with a peer's key.
    open spec fn shared_secret(&self, peer_cose_key: cosey::PublicKey) -> Seq<u8> {
        arbitrary()
    }

    /// What `decrypt` makes of a ciphertext.
    open spec fn plaintext_of(&self, ciphertext: Seq<u8>) -> Seq<u8> {
        arbitrary()
    }

    /// Whether `verify` accepts a signature for a message under a key.
    open spec fn verifies(&self, key: Seq<u8>, message: Seq<u8>, signature: Seq<u8>) -> bool {
        arbitrary()
    }

    /// This process is run by the authenticator at power-on.
    fn initialize(&mut self) -> Result<(), Self::Error>;

    /// Generates a fresh public key.
    fn regenerate(&mut self) -> Result<(), Self::Error>;

    /// Generates a fresh pinUvAuthToken. The key pair stays as it is.
    fn reset_pin_uv_auth_token(&mut self) -> (outcome: Result<(), Self::Error>)
        ensures
            outcome is Ok ==> final(self).public_key() == old(self).public_key(),
    ;

    /// Returns the authenticator's public key as a COSE_Key structure.
    fn get_public_key(&self) -> (key: Result<cosey::PublicKey, Self::Error>)
        ensures
            key matches Ok(k) ==> k == self.public_key(),
    ;

    /// Processes the output of encapsulate from the peer and produces a
    /// shared secret, known to both platform and authenticator. The secret
    /// depends on the two keys alone.
    fn decapsulate(&self, peer_cose_key: cosey::PublicKey) -> (secret: Result<
        Vec<u8>,
        Self::Error,
    >)
        ensures
            secret matches Ok(s) ==> s@ == self.shared_secret(peer_cose_key),
    ;

    /// Decrypts a ciphertext, using sharedSecret as a key, and returns the
    /// plaintext.
    fn decrypt(&self, ciphertext: &[u8]) -> (plaintext: Result<Vec<u8>, Self::Error>)
        ensures
            plaintext matches Ok(p) ==> p@ == self.plaintext_of(ciphertext@),
    ;

    /// Verifies that the signature is a valid MAC for the given message. If
    /// the key parameter value is the current pinUvAuthToken, it
    /// also checks whether the pinUvAuthToken is in use or not.
    fn verify(&self, key: &[u8], message: &[u8], signature: &[u8]) -> (outcome: Result<
        (),
        Self::Error,
    >)
        ensures
            outcome is Ok <==> self.verifies(key@, message@, signature@),
    ;
}

} // verus!
