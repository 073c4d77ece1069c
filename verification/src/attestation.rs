use vstd::prelude::*;

verus! {

/// > WebAuthn Relying Parties may use AttestationConveyancePreference to
/// > specify their preference regarding attestation conveyance during
/// > credential generation.
/// >
/// > <https://w3c.github.io/webauthn/#enum-attestation-convey/>
#[derive(Clone, Copy, Debug)]
pub enum ConveyancePreference {
    /// > The Relying Party is not interested in authenticator attestation.
    NoAttestation,
    /// > The Relying Party wants to receive a verifiable attestation statement,
    /// > but allows the client to decide how to obtain such an attestation
    /// > statement.
    Indirect,
    /// > The Relying Party wants to receive the attestation statement as
    /// > generated by the authenticator.
    Direct,
    /// > The Relying Party wants to receive an attestation statement that may
    /// > include uniquely identifying information.
    Enterprise,
}

} // verus!
