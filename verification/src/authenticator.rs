use vstd::prelude::*;

pub mod assertion;
pub mod client_pin;
pub mod credential;

verus! {

/// SHA 256 hash values are 32 bytes long.
pub type Sha256Hash = [u8; 32];

} // verus!
