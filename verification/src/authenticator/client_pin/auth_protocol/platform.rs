//! The platform's side of the PIN/UV auth protocol.

use crate::authenticator::client_pin::auth_protocol::{
    block_aligned, spec_frame, zero_block, Version,
};
use vstd::prelude::*;

verus! {

/// One transaction's worth of shared secret on the platform. A session is
/// made by `initialize` and by nothing else, and no method changes it: a
/// second transaction needs a second session, with a key pair of its own.
///
/// The specification functions name what the methods compute. An
/// implementation says what they are; the defaults say nothing.
pub trait Session: Sized {
    type Error;

    /// The version of the protocol that the session speaks.
    open spec fn protocol(&self) -> Version {
        arbitrary()
    }

    /// What the block cipher makes of a plaintext under the session's
    /// secret and an initialization vector.
    open spec fn cipher(&self, iv: Seq<u8>, plaintext: Seq<u8>) -> Seq<u8> {
        arbitrary()
    }

    /// What `decrypt` makes of a ciphertext under this session.
    open spec fn plaintext_of(&self, ciphertext: Seq<u8>) -> Seq<u8> {
        arbitrary()
    }

    /// The message authentication code of a message under this session,
    /// before it is cut.
    open spec fn mac_of(&self, message: Seq<u8>) -> Seq<u8> {
        arbitrary()
    }

    fn version(&self) -> (version: Version)
        ensures
            version == self.protocol(),
    ;

    /// Encompasses both the `initialize` and `encapsulate` functions in the
    /// platform interface of the protocol. This is done to guard against
    /// private key reuse by the platform. As a consequence, a new
    /// session must be initialized for each transaction with a
    /// freshly generated private key.
    fn initialize(peer_cose_key: cosey::PublicKey) -> Result<Self, Self::Error>;

    fn platform_key_agreement_key(&self) -> &cosey::PublicKey;

    /// Encrypts a plaintext to produce a ciphertext, which may be longer
    /// than the plaintext. The plaintext is restricted to being a
    /// multiple of the AES block size (16 bytes) in length.
    ///
    /// Under version one the initialization vector is all zero and the
    /// ciphertext is what the cipher gives. Under version two the vector is
    /// picked for the message and goes first in the ciphertext.
    fn encrypt(&self, plaintext: &[u8]) -> (sealed: Result<Vec<u8>, Self::Error>)
        requires
            block_aligned(plaintext@.len()),
        ensures
            sealed matches Ok(ciphertext) ==> {
                &&& ciphertext@.len() == self.protocol().spec_ciphertext_length(plaintext@.len())
                &&& self.plaintext_of(ciphertext@) == plaintext@
                &&& exists|iv: Seq<u8>|
                    {
                        &&& iv.len() == 16
                        &&& self.protocol() == Version::One ==> iv == zero_block()
                        &&& #[trigger] self.cipher(iv, plaintext@).len() == plaintext@.len()
                        &&& ciphertext@ == spec_frame(
                            self.protocol(),
                            iv,
                            self.cipher(iv, plaintext@),
                        )
                    }
            },
    ;

    /// Decrypts a ciphertext and returns the plaintext.
    fn decrypt(&self, ciphertext: &[u8]) -> (plaintext: Vec<u8>)
        requires
            block_aligned(ciphertext@.len()),
        ensures
            plaintext@ == self.plaintext_of(ciphertext@),
    ;

    /// Computes a MAC of the given message, cut to its first sixteen
    /// bytes.
    fn authenticate(&self, message: &[u8]) -> (tag: Result<[u8; 16], Self::Error>)
        ensures
            tag matches Ok(t) ==> t@ == self.mac_of(message@).take(16),
    ;
}

/// Under one session, decrypting what `encrypt` made of a block-aligned
/// plaintext gives that plaintext back.
pub proof fn lemma_decrypt_inverts_encrypt<S: Session>(
    session: &S,
    plaintext: &[u8],
    sealed: Vec<u8>,
    ciphertext: &[u8],
    recovered: Vec<u8>,
)
    requires
        block_aligned(plaintext@.len()),
        call_ensures(S::encrypt, (session, plaintext), Ok::<Vec<u8>, S::Error>(sealed)),
        ciphertext@ == sealed@,
        call_ensures(S::decrypt, (session, ciphertext), recovered),
    ensures
        block_aligned(ciphertext@.len()),
        recovered@ == plaintext@,
{
}

/// Under version one, encryption has no choice: two ciphertexts that one
/// session made of one plaintext are the same.
pub proof fn lemma_version_one_encrypts_one_way<S: Session>(
    session: &S,
    plaintext: &[u8],
    first: Vec<u8>,
    second: Vec<u8>,
)
    requires
        session.protocol() == Version::One,
        block_aligned(plaintext@.len()),
        call_ensures(S::encrypt, (session, plaintext), Ok::<Vec<u8>, S::Error>(first)),
        call_ensures(S::encrypt, (session, plaintext), Ok::<Vec<u8>, S::Error>(second)),
    ensures
        first@ == second@,
{
}

} // verus!
