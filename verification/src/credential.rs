use vstd::prelude::*;

verus! {

/// > This enumeration defines the valid credential types. It is an
/// > extension point; values can be added to it in the future, as
/// > more credential types are defined. The values of this
/// > enumeration are used for versioning the Authentication
/// > Assertion and attestation structures according to the type of
/// > the authenticator.
#[derive(Debug, Clone, Copy)]
#[non_exhaustive]
pub enum Type {
    PublicKey,
}

} // verus!
