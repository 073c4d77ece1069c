//! Protocol types and authorization rules of a CTAP2 authenticator: the
//! PIN/UV auth protocol, the client-PIN command with its retry counters, and
//! the permission model that privileged commands consult.

use vstd::prelude::*;

pub mod attestation;
pub mod authenticator;
pub mod credential;
pub mod prelude;

verus! {

/// Defines the raw CTAP operations, as far as this crate holds their
/// requests and responses.
pub trait Ctap2_2Authenticator {
    /// > This command exists so that plaintext PINs are not sent to the
    /// > authenticator. Instead, a PIN/UV auth protocol (aka
    /// > `pinUvAuthProtocol`) ensures that PINs are encrypted when sent to an
    /// > authenticator and are exchanged for a `pinUvAuthToken` that serves to
    /// > authenticate subsequent commands.
    fn client_pin(
        &mut self,
        request: authenticator::client_pin::Request,
    ) -> Result<authenticator::client_pin::Response, authenticator::client_pin::Error>;
}

/// The command byte that selects an authenticator operation.
#[derive(Clone, Copy, Debug, PartialEq, Eq, Structural)]
pub enum Command {
    AuthenticatorMakeCredential,
    AuthenticatorGetAssertion,
    AuthenticatorGetNextAssertion,
    AuthenticatorGetInfo,
    AuthenticatorClientPin,
    AuthenticatorReset,
    AuthenticatorBioEnrollment,
    AuthenticatorCredentialManagement,
    AuthenticatorSelection,
    AuthenticatorLargeBlobs,
    AuthenticatorConfig,
    PrototypeAuthenticatorBioEnrollment,
    PrototypeAuthenticatorCredentialManagement,
}

impl Command {
    /// The byte under which the command travels.
    pub open spec fn spec_code(self) -> u8 {
        match self {
            Command::AuthenticatorMakeCredential => 0x01,
            Command::AuthenticatorGetAssertion => 0x02,
            Command::AuthenticatorGetNextAssertion => 0x08,
            Command::AuthenticatorGetInfo => 0x04,
            Command::AuthenticatorClientPin => 0x06,
            Command::AuthenticatorReset => 0x07,
            Command::AuthenticatorBioEnrollment => 0x09,
            Command::AuthenticatorCredentialManagement => 0x0A,
            Command::AuthenticatorSelection => 0x0B,
            Command::AuthenticatorLargeBlobs => 0x0C,
            Command::AuthenticatorConfig => 0x0D,
            Command::PrototypeAuthenticatorBioEnrollment => 0x40,
            Command::PrototypeAuthenticatorCredentialManagement => 0x41,
        }
    }

    /// The command that travels under `byte`, if there is one.
    pub open spec fn spec_from_code(byte: u8) -> Option<Command> {
        if byte == 0x01 {
            Some(Command::AuthenticatorMakeCredential)
        } else if byte == 0x02 {
            Some(Command::AuthenticatorGetAssertion)
        } else if byte == 0x08 {
            Some(Command::AuthenticatorGetNextAssertion)
        } else if byte == 0x04 {
            Some(Command::AuthenticatorGetInfo)
        } else if byte == 0x06 {
            Some(Command::AuthenticatorClientPin)
        } else if byte == 0x07 {
            Some(Command::AuthenticatorReset)
        } else if byte == 0x09 {
            Some(Command::AuthenticatorBioEnrollment)
        } else if byte == 0x0A {
            Some(Command::AuthenticatorCredentialManagement)
        } else if byte == 0x0B {
            Some(Command::AuthenticatorSelection)
        } else if byte == 0x0C {
            Some(Command::AuthenticatorLargeBlobs)
        } else if byte == 0x0D {
            Some(Command::AuthenticatorConfig)
        } else if byte == 0x40 {
            Some(Command::PrototypeAuthenticatorBioEnrollment)
        } else if byte == 0x41 {
            Some(Command::PrototypeAuthenticatorCredentialManagement)
        } else {
            None
        }
    }

    /// The byte under which the command travels.
    #[verifier::when_used_as_spec(spec_code)]
    pub fn code(self) -> (byte: u8)
        ensures
            byte == self.spec_code(),
            Command::spec_from_code(byte) == Some(self),
    {
        match self {
            Command::AuthenticatorMakeCredential => 0x01,
            Command::AuthenticatorGetAssertion => 0x02,
            Command::AuthenticatorGetNextAssertion => 0x08,
            Command::AuthenticatorGetInfo => 0x04,
            Command::AuthenticatorClientPin => 0x06,
            Command::AuthenticatorReset => 0x07,
            Command::AuthenticatorBioEnrollment => 0x09,
            Command::AuthenticatorCredentialManagement => 0x0A,
            Command::AuthenticatorSelection => 0x0B,
            Command::AuthenticatorLargeBlobs => 0x0C,
            Command::AuthenticatorConfig => 0x0D,
            Command::PrototypeAuthenticatorBioEnrollment => 0x40,
            Command::PrototypeAuthenticatorCredentialManagement => 0x41,
        }
    }

    /// The command that travels under `byte`, if there is one.
    #[verifier::when_used_as_spec(spec_from_code)]
    pub fn from_code(byte: u8) -> (command: Option<Command>)
        ensures
            command == Command::spec_from_code(byte),
            command matches Some(c) ==> c.spec_code() == byte,
    {
        match byte {
            0x01 => Some(Command::AuthenticatorMakeCredential),
            0x02 => Some(Command::AuthenticatorGetAssertion),
            0x08 => Some(Command::AuthenticatorGetNextAssertion),
            0x04 => Some(Command::AuthenticatorGetInfo),
            0x06 => Some(Command::AuthenticatorClientPin),
            0x07 => Some(Command::AuthenticatorReset),
            0x09 => Some(Command::AuthenticatorBioEnrollment),
            0x0A => Some(Command::AuthenticatorCredentialManagement),
            0x0B => Some(Command::AuthenticatorSelection),
            0x0C => Some(Command::AuthenticatorLargeBlobs),
            0x0D => Some(Command::AuthenticatorConfig),
            0x40 => Some(Command::PrototypeAuthenticatorBioEnrollment),
            0x41 => Some(Command::PrototypeAuthenticatorCredentialManagement),
            _ => None,
        }
    }
}

} // verus!
