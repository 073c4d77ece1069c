//! The PIN/UV auth protocol: its two versions, the parameters each version
//! selects, and the framing of ciphertexts and authentication tags that both
//! sides of the protocol share.

use crate::authenticator::client_pin::bytes::prefix;
use crate::authenticator::client_pin::Error;
use vstd::prelude::*;
use vstd::slice::{slice_subrange, slice_to_vec};

pub mod authenticator;
pub mod platform;

verus! {

/// The version of the PIN/UV auth protocol. It travels as one byte.
#[derive(Clone, Copy, PartialEq, Eq, Hash, Debug, Structural)]
pub enum Version {
    One,
    Two,
}

/// The AES block size, in bytes.
pub const BLOCK_SIZE: usize = 16;

/// The length of an authentication tag, in bytes.
pub const TAG_SIZE: usize = 16;

impl Version {
    /// The byte that stands for the version.
    pub open spec fn spec_to_byte(self) -> u8 {
        match self {
            Version::One => 1,
            Version::Two => 2,
        }
    }

    /// The version that a byte stands for; any byte but 1 and 2 is refused.
    pub open spec fn spec_parse(byte: u8) -> Result<Version, Error> {
        if byte == 1 {
            Ok(Version::One)
        } else if byte == 2 {
            Ok(Version::Two)
        } else {
            Err(Error::InvalidParameter)
        }
    }

    /// The length in bytes of the tokens issued under the version.
    pub open spec fn spec_token_length(self) -> usize {
        match self {
            Version::One => 16,
            Version::Two => 32,
        }
    }

    /// The length in bytes to which an authentication tag is cut.
    pub open spec fn spec_tag_length(self) -> usize {
        16
    }

    /// Whether a ciphertext starts with the initialization vector it was
    /// made with. Version one always encrypts under the all-zero vector and
    /// sends none.
    pub open spec fn spec_prefixes_iv(self) -> bool {
        self == Version::Two
    }

    /// The length of the ciphertext for a plaintext of the given length.
    pub open spec fn spec_ciphertext_length(self, plaintext_length: nat) -> nat {
        match self {
            Version::One => plaintext_length,
            Version::Two => plaintext_length + 16,
        }
    }

    /// The length in bytes of the tokens issued under the version.
    #[verifier::when_used_as_spec(spec_token_length)]
    pub fn token_length(self) -> (length: usize)
        ensures
            length == self.spec_token_length(),
            length == 16 || length == 32,
    {
        match self {
            Version::One => 16,
            Version::Two => 32,
        }
    }

    /// The length in bytes to which an authentication tag is cut.
    #[verifier::when_used_as_spec(spec_tag_length)]
    pub fn tag_length(self) -> (length: usize)
        ensures
            length == 16,
    {
        TAG_SIZE
    }

    /// Whether a ciphertext starts with the initialization vector it was
    /// made with.
    #[verifier::when_used_as_spec(spec_prefixes_iv)]
    pub fn prefixes_iv(self) -> (prefixed: bool)
        ensures
            prefixed == self.spec_prefixes_iv(),
    {
        match self {
            Version::One => false,
            Version::Two => true,
        }
    }

    /// The length of the ciphertext for a plaintext of the given length, or
    /// `None` where that length does not fit the machine.
    pub fn ciphertext_length(self, plaintext_length: usize) -> (length: Option<usize>)
        ensures
            match length {
                Some(n) => n == self.spec_ciphertext_length(plaintext_length as nat),
                None => self.spec_ciphertext_length(plaintext_length as nat) > usize::MAX,
            },
    {
        match self {
            Version::One => Some(plaintext_length),
            Version::Two => plaintext_length.checked_add(BLOCK_SIZE),
        }
    }
}

impl From<Version> for u8 {
    fn from(value: Version) -> (byte: u8)
        ensures
            byte == value.spec_to_byte(),
            byte == 1 || byte == 2,
    {
        match value {
            Version::One => 1,
            Version::Two => 2,
        }
    }
}

impl vstd::std_specs::convert::FromSpecImpl<Version> for u8 {
    open spec fn obeys_from_spec() -> bool {
        true
    }

    open spec fn from_spec(value: Version) -> u8 {
        value.spec_to_byte()
    }
}

impl TryFrom<u8> for Version {
    type Error = Error;

    fn try_from(value: u8) -> (parsed: Result<Self, Error>)
        ensures
            parsed == Version::spec_parse(value),
    {
        match value {
            1 => Ok(Version::One),
            2 => Ok(Version::Two),
            _ => Err(Error::InvalidParameter),
        }
    }
}

impl vstd::std_specs::convert::TryFromSpecImpl<u8> for Version {
    open spec fn obeys_try_from_spec() -> bool {
        true
    }

    open spec fn try_from_spec(value: u8) -> Result<Self, Error> {
        Version::spec_parse(value)
    }
}

/// Parsing the byte of a version gives that version back.
pub proof fn lemma_version_round_trip(version: Version)
    ensures
        Version::spec_parse(version.spec_to_byte()) == Ok::<Version, Error>(version),
{
}

/// A byte parses exactly when it is 1 or 2; every other byte is an invalid
/// parameter. A byte that parses is the byte of the version it gives.
pub proof fn lemma_version_parse_domain(byte: u8)
    ensures
        Version::spec_parse(byte) is Ok <==> byte == 1 || byte == 2,
        Version::spec_parse(byte) is Err ==> Version::spec_parse(byte)
            == Err::<Version, Error>(Error::InvalidParameter),
        Version::spec_parse(byte) matches Ok(version) ==> version.spec_to_byte() == byte,
{
}

/// Whether `length` bytes make up a whole number of cipher blocks.
pub open spec fn block_aligned(length: nat) -> bool {
    length % 16 == 0
}

/// Whether `length` bytes make up a whole number of cipher blocks.
pub fn is_block_aligned(length: usize) -> (aligned: bool)
    ensures
        aligned == block_aligned(length as nat),
{
    length % BLOCK_SIZE == 0
}

/// Sixteen zero bytes.
pub open spec fn zero_block() -> Seq<u8> {
    Seq::new(16, |i: int| 0u8)
}

/// The initialization vector for one message: all zero under version one,
/// the fresh block under version two.
pub open spec fn spec_initialization_vector(version: Version, fresh: Seq<u8>) -> Seq<u8> {
    match version {
        Version::One => zero_block(),
        Version::Two => fresh,
    }
}

/// The ciphertext as it travels: under version two the initialization vector
/// goes first, under version one the body travels alone.
pub open spec fn spec_frame(version: Version, iv: Seq<u8>, body: Seq<u8>) -> Seq<u8> {
    match version {
        Version::One => body,
        Version::Two => iv + body,
    }
}

/// The initialization vector and the body of a ciphertext as it travelled.
/// There is none where the ciphertext is not block-aligned, or where it is
/// too short to hold the vector that version two sends.
pub open spec fn spec_unframe(version: Version, ciphertext: Seq<u8>) -> Option<
    (Seq<u8>, Seq<u8>),
> {
    if !block_aligned(ciphertext.len()) {
        None
    } else {
        match version {
            Version::One => Some((zero_block(), ciphertext)),
            Version::Two => if ciphertext.len() < 16 {
                None
            } else {
                Some((ciphertext.take(16), ciphertext.skip(16)))
            },
        }
    }
}

/// Picks the initialization vector for one message. `fresh` must come from
/// a random source; version one does not use it.
pub fn initialization_vector(version: Version, fresh: &[u8; 16]) -> (iv: [u8; 16])
    ensures
        iv@ == spec_initialization_vector(version, fresh@),
{
    match version {
        Version::One => {
            let iv = [0u8;16];
            assert(iv@ =~= zero_block());
            iv
        },
        Version::Two => *fresh,
    }
}

/// Puts a ciphertext body in the shape in which it travels.
pub fn frame_ciphertext(version: Version, iv: &[u8; 16], body: &[u8]) -> (framed: Vec<u8>)
    ensures
        framed@ == spec_frame(version, iv@, body@),
        framed@.len() == version.spec_ciphertext_length(body@.len()),
{
    let mut framed: Vec<u8> = Vec::new();
    if version.prefixes_iv() {
        framed.extend_from_slice(iv.as_slice());
    }
    framed.extend_from_slice(body);
    assert(Seq::<u8>::empty() + iv@ =~= iv@);
    assert(Seq::<u8>::empty() + body@ =~= body@);
    framed
}

/// Takes a ciphertext apart as it travelled.
pub fn unframe_ciphertext(version: Version, ciphertext: &[u8]) -> (parts: Option<
    ([u8; 16], Vec<u8>),
>)
    ensures
        match spec_unframe(version, ciphertext@) {
            Some((iv, body)) => parts matches Some(p) && p.0@ == iv && p.1@ == body,
            None => parts is None,
        },
{
    let length = ciphertext.len();
    if length % BLOCK_SIZE != 0 {
        return None;
    }
    if version.prefixes_iv() {
        if length < BLOCK_SIZE {
            return None;
        }
        let iv = prefix::<16>(ciphertext);
        let body = slice_to_vec(slice_subrange(ciphertext, BLOCK_SIZE, length));
        assert(ciphertext@.subrange(16, length as int) =~= ciphertext@.skip(16));
        Some((iv, body))
    } else {
        let iv = [0u8;16];
        assert(iv@ =~= zero_block());
        Some((iv, slice_to_vec(ciphertext)))
    }
}

/// Cuts a message authentication code down to the tag that travels: its
/// first sixteen bytes.
pub fn truncate_mac(mac: &[u8; 32]) -> (tag: [u8; 16])
    ensures
        tag@ == mac@.take(16),
{
    prefix::<16>(mac.as_slice())
}

/// Taking a framed ciphertext apart gives back the initialization vector
/// that the version prescribes and the body that was framed.
pub proof fn lemma_unframe_inverts_frame(version: Version, fresh: Seq<u8>, body: Seq<u8>)
    requires
        fresh.len() == 16,
        block_aligned(body.len()),
    ensures
        spec_unframe(
            version,
            spec_frame(version, spec_initialization_vector(version, fresh), body),
        ) == Some((spec_initialization_vector(version, fresh), body)),
        spec_frame(version, spec_initialization_vector(version, fresh), body).len()
            == version.spec_ciphertext_length(body.len()),
{
    let iv = spec_initialization_vector(version, fresh);
    let framed = spec_frame(version, iv, body);
    match version {
        Version::One => {},
        Version::Two => {
            assert(framed.len() == 16 + body.len());
            assert(framed.take(16) =~= iv);
            assert(framed.skip(16) =~= body);
        },
    }
}

} // verus!
