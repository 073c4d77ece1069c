//! The client-PIN command as it travels: one flat record of optional
//! fields for requests and one for responses, and the conversions between
//! those records and the requests and responses that they stand for.
//!
//! Building a record from a request or a response cannot fail, and sets
//! only the fields that belong to it. Reading one can: a field that the
//! operation needs and that is absent is a missing parameter, and a field
//! that is present with a value out of range is an invalid parameter. The
//! first is looked for in all fields before the second is in any.

use crate::authenticator::client_pin::auth_protocol::Version;
use crate::authenticator::client_pin::permissions::{
    lemma_bits_inverts_from_bits, lemma_from_bits_inverts_bits, spec_bits, spec_from_bits,
    Permission, PermissionSet,
};
use crate::authenticator::client_pin::bytes::prefix;
use crate::authenticator::client_pin::{
    copy_of_text, count_view, lemma_token_length, text_view, Error, PinUvAuthToken, Request,
    RequestView, Response, ResponseView, UvRetries,
};
use vstd::prelude::*;
use vstd::slice::slice_to_vec;

verus! {

/// The operations of the client-PIN command.
#[derive(Clone, Copy, Debug, PartialEq, Eq, Structural)]
pub enum SubCommand {
    GetPinRetries,
    GetKeyAgreement,
    SetPin,
    ChangePin,
    GetPinToken,
    GetPinUvAuthTokenUsingUvWithPermissions,
    GetUvRetries,
    GetPinUvAuthTokenUsingPinWithPermissions,
}

impl SubCommand {
    /// The number under which the operation travels.
    pub open spec fn spec_code(self) -> u8 {
        match self {
            SubCommand::GetPinRetries => 0x01,
            SubCommand::GetKeyAgreement => 0x02,
            SubCommand::SetPin => 0x03,
            SubCommand::ChangePin => 0x04,
            SubCommand::GetPinToken => 0x05,
            SubCommand::GetPinUvAuthTokenUsingUvWithPermissions => 0x06,
            SubCommand::GetUvRetries => 0x07,
            SubCommand::GetPinUvAuthTokenUsingPinWithPermissions => 0x09,
        }
    }

    /// The operation that travels under a number, if there is one.
    pub open spec fn spec_from_code(code: u8) -> Option<SubCommand> {
        if code == 0x01 {
            Some(SubCommand::GetPinRetries)
        } else if code == 0x02 {
            Some(SubCommand::GetKeyAgreement)
        } else if code == 0x03 {
            Some(SubCommand::SetPin)
        } else if code == 0x04 {
            Some(SubCommand::ChangePin)
        } else if code == 0x05 {
            Some(SubCommand::GetPinToken)
        } else if code == 0x06 {
            Some(SubCommand::GetPinUvAuthTokenUsingUvWithPermissions)
        } else if code == 0x07 {
            Some(SubCommand::GetUvRetries)
        } else if code == 0x09 {
            Some(SubCommand::GetPinUvAuthTokenUsingPinWithPermissions)
        } else {
            None
        }
    }

    /// Whether a request for the operation names the protocol version.
    pub open spec fn spec_needs_protocol(self) -> bool {
        self != SubCommand::GetPinRetries && self != SubCommand::GetUvRetries
    }

    /// Whether a request for the operation carries the platform's key.
    pub open spec fn spec_needs_key_agreement(self) -> bool {
        self.spec_needs_protocol() && self != SubCommand::GetKeyAgreement
    }

    /// Whether a request for the operation carries an encrypted new PIN,
    /// and with it an authentication parameter.
    pub open spec fn spec_needs_new_pin(self) -> bool {
        self == SubCommand::SetPin || self == SubCommand::ChangePin
    }

    /// Whether a request for the operation carries the encrypted hash of
    /// the PIN.
    pub open spec fn spec_needs_pin_hash(self) -> bool {
        self == SubCommand::ChangePin || self == SubCommand::GetPinToken || self
            == SubCommand::GetPinUvAuthTokenUsingPinWithPermissions
    }

    /// Whether a request for the operation names permissions, and may name
    /// a relying party.
    pub open spec fn spec_needs_permissions(self) -> bool {
        self == SubCommand::GetPinUvAuthTokenUsingUvWithPermissions || self
            == SubCommand::GetPinUvAuthTokenUsingPinWithPermissions
    }

    /// The number under which the operation travels.
    #[verifier::when_used_as_spec(spec_code)]
    pub fn code(self) -> (code: u8)
        ensures
            code == self.spec_code(),
            SubCommand::spec_from_code(code) == Some(self),
    {
        match self {
            SubCommand::GetPinRetries => 0x01,
            SubCommand::GetKeyAgreement => 0x02,
            SubCommand::SetPin => 0x03,
            SubCommand::ChangePin => 0x04,
            SubCommand::GetPinToken => 0x05,
            SubCommand::GetPinUvAuthTokenUsingUvWithPermissions => 0x06,
            SubCommand::GetUvRetries => 0x07,
            SubCommand::GetPinUvAuthTokenUsingPinWithPermissions => 0x09,
        }
    }

    /// The operation that travels under a number, if there is one.
    #[verifier::when_used_as_spec(spec_from_code)]
    pub fn from_code(code: u8) -> (operation: Option<SubCommand>)
        ensures
            operation == SubCommand::spec_from_code(code),
            operation matches Some(op) ==> op.spec_code() == code,
    {
        match code {
            0x01 => Some(SubCommand::GetPinRetries),
            0x02 => Some(SubCommand::GetKeyAgreement),
            0x03 => Some(SubCommand::SetPin),
            0x04 => Some(SubCommand::ChangePin),
            0x05 => Some(SubCommand::GetPinToken),
            0x06 => Some(SubCommand::GetPinUvAuthTokenUsingUvWithPermissions),
            0x07 => Some(SubCommand::GetUvRetries),
            0x09 => Some(SubCommand::GetPinUvAuthTokenUsingPinWithPermissions),
            _ => None,
        }
    }

    /// Whether a request for the operation names the protocol version.
    #[verifier::when_used_as_spec(spec_needs_protocol)]
    pub fn needs_protocol(self) -> (needed: bool)
        ensures
            needed == self.spec_needs_protocol(),
    {
        match self {
            SubCommand::GetPinRetries => false,
            SubCommand::GetUvRetries => false,
            _ => true,
        }
    }

    /// Whether a request for the operation carries the platform's key.
    #[verifier::when_used_as_spec(spec_needs_key_agreement)]
    pub fn needs_key_agreement(self) -> (needed: bool)
        ensures
            needed == self.spec_needs_key_agreement(),
    {
        match self {
            SubCommand::GetPinRetries => false,
            SubCommand::GetUvRetries => false,
            SubCommand::GetKeyAgreement => false,
            _ => true,
        }
    }

    /// Whether a request for the operation carries an encrypted new PIN,
    /// and with it an authentication parameter.
    #[verifier::when_used_as_spec(spec_needs_new_pin)]
    pub fn needs_new_pin(self) -> (needed: bool)
        ensures
            needed == self.spec_needs_new_pin(),
    {
        match self {
            SubCommand::SetPin => true,
            SubCommand::ChangePin => true,
            _ => false,
        }
    }

    /// Whether a request for the operation carries the encrypted hash of
    /// the PIN.
    #[verifier::when_used_as_spec(spec_needs_pin_hash)]
    pub fn needs_pin_hash(self) -> (needed: bool)
        ensures
            needed == self.spec_needs_pin_hash(),
    {
        match self {
            SubCommand::ChangePin => true,
            SubCommand::GetPinToken => true,
            SubCommand::GetPinUvAuthTokenUsingPinWithPermissions => true,
            _ => false,
        }
    }

    /// Whether a request for the operation names permissions, and may name
    /// a relying party.
    #[verifier::when_used_as_spec(spec_needs_permissions)]
    pub fn needs_permissions(self) -> (needed: bool)
        ensures
            needed == self.spec_needs_permissions(),
    {
        match self {
            SubCommand::GetPinUvAuthTokenUsingUvWithPermissions => true,
            SubCommand::GetPinUvAuthTokenUsingPinWithPermissions => true,
            _ => false,
        }
    }
}

impl RequestView {
    /// The operation that the request asks for.
    pub open spec fn sub_command(self) -> SubCommand {
        match self {
            RequestView::GetPinRetries => SubCommand::GetPinRetries,
            RequestView::GetKeyAgreement { .. } => SubCommand::GetKeyAgreement,
            RequestView::SetPin { .. } => SubCommand::SetPin,
            RequestView::ChangePin { .. } => SubCommand::ChangePin,
            RequestView::GetPinToken { .. } => SubCommand::GetPinToken,
            RequestView::GetPinUvAuthTokenUsingUvWithPermissions { .. } => {
                SubCommand::GetPinUvAuthTokenUsingUvWithPermissions
            },
            RequestView::GetUvRetries => SubCommand::GetUvRetries,
            RequestView::GetPinUvAuthTokenUsingPinWithPermissions { .. } => {
                SubCommand::GetPinUvAuthTokenUsingPinWithPermissions
            },
        }
    }

    /// The record that stands for the request. A field that the request
    /// does not have is absent from it.
    pub open spec fn encode(self) -> RawRequestView {
        let none = RawRequestView {
            pin_uv_auth_protocol: None,
            sub_command: Some(self.sub_command().spec_code()),
            key_agreement: None,
            pin_uv_auth_param: None,
            new_pin_enc: None,
            pin_hash_enc: None,
            permissions: None,
            rp_id: None,
        };
        match self {
            RequestView::GetPinRetries => none,
            RequestView::GetKeyAgreement { version } => RawRequestView {
                pin_uv_auth_protocol: Some(version.spec_to_byte()),
                ..none
            },
            RequestView::SetPin {
                version,
                key_agreement,
                new_pin_encrypted,
                pin_uv_auth_param,
            } => RawRequestView {
                pin_uv_auth_protocol: Some(version.spec_to_byte()),
                key_agreement: Some(key_agreement),
                new_pin_enc: Some(new_pin_encrypted),
                pin_uv_auth_param: Some(pin_uv_auth_param),
                ..none
            },
            RequestView::ChangePin {
                version,
                key_agreement,
                pin_hash_encrypted,
                new_pin_encrypted,
                pin_uv_auth_param,
            } => RawRequestView {
                pin_uv_auth_protocol: Some(version.spec_to_byte()),
                key_agreement: Some(key_agreement),
                pin_hash_enc: Some(pin_hash_encrypted),
                new_pin_enc: Some(new_pin_encrypted),
                pin_uv_auth_param: Some(pin_uv_auth_param),
                ..none
            },
            RequestView::GetPinToken { version, key_agreement, pin_hash_encrypted } => {
                RawRequestView {
                    pin_uv_auth_protocol: Some(version.spec_to_byte()),
                    key_agreement: Some(key_agreement),
                    pin_hash_enc: Some(pin_hash_encrypted),
                    ..none
                }
            },
            RequestView::GetPinUvAuthTokenUsingUvWithPermissions {
                version,
                key_agreement,
                permissions,
                relying_party_id,
            } => RawRequestView {
                pin_uv_auth_protocol: Some(version.spec_to_byte()),
                key_agreement: Some(key_agreement),
                permissions: Some(spec_bits(permissions) as u8),
                rp_id: relying_party_id,
                ..none
            },
            RequestView::GetUvRetries => none,
            RequestView::GetPinUvAuthTokenUsingPinWithPermissions {
                version,
                key_agreement,
                pin_hash_encrypted,
                permissions,
                relying_party_id,
            } => RawRequestView {
                pin_uv_auth_protocol: Some(version.spec_to_byte()),
                key_agreement: Some(key_agreement),
                pin_hash_enc: Some(pin_hash_encrypted),
                permissions: Some(spec_bits(permissions) as u8),
                rp_id: relying_party_id,
                ..none
            },
        }
    }
}

/// A request as it travels.
#[derive(Debug)]
pub struct RawRequest {
    pub pin_uv_auth_protocol: Option<u8>,
    pub sub_command: Option<u8>,
    pub key_agreement: Option<cosey::PublicKey>,
    pub pin_uv_auth_param: Option<Vec<u8>>,
    pub new_pin_enc: Option<Vec<u8>>,
    pub pin_hash_enc: Option<Vec<u8>>,
    pub permissions: Option<u8>,
    pub rp_id: Option<String>,
}

/// A request as it travels, as a mathematical value.
pub struct RawRequestView {
    pub pin_uv_auth_protocol: Option<u8>,
    pub sub_command: Option<u8>,
    pub key_agreement: Option<cosey::PublicKey>,
    pub pin_uv_auth_param: Option<Seq<u8>>,
    pub new_pin_enc: Option<Seq<u8>>,
    pub pin_hash_enc: Option<Seq<u8>>,
    pub permissions: Option<u8>,
    pub rp_id: Option<Seq<char>>,
}

/// The bytes of a field that may be absent.
pub open spec fn bytes_view(bytes: Option<Vec<u8>>) -> Option<Seq<u8>> {
    match bytes {
        Some(b) => Some(b@),
        None => None,
    }
}

/// A copy of a byte field that may be absent.
fn copy_of_bytes(bytes: &Option<Vec<u8>>) -> (copy: Option<Vec<u8>>)
    ensures
        bytes_view(copy) == bytes_view(*bytes),
{
    match bytes {
        Some(b) => Some(slice_to_vec(b.as_slice())),
        None => None,
    }
}

/// A copy of a key that may be absent.
fn copy_of_key(key: &Option<cosey::PublicKey>) -> (copy: Option<cosey::PublicKey>)
    ensures
        copy == *key,
{
    match key {
        Some(k) => Some(k.clone()),
        None => None,
    }
}

impl Clone for RawRequest {
    fn clone(&self) -> (copy: Self)
        ensures
            copy@ == self@,
    {
        RawRequest {
            pin_uv_auth_protocol: self.pin_uv_auth_protocol,
            sub_command: self.sub_command,
            key_agreement: copy_of_key(&self.key_agreement),
            pin_uv_auth_param: copy_of_bytes(&self.pin_uv_auth_param),
            new_pin_enc: copy_of_bytes(&self.new_pin_enc),
            pin_hash_enc: copy_of_bytes(&self.pin_hash_enc),
            permissions: self.permissions,
            rp_id: copy_of_text(&self.rp_id),
        }
    }
}

impl View for RawRequest {
    type V = RawRequestView;

    open spec fn view(&self) -> RawRequestView {
        RawRequestView {
            pin_uv_auth_protocol: self.pin_uv_auth_protocol,
            sub_command: self.sub_command,
            key_agreement: self.key_agreement,
            pin_uv_auth_param: bytes_view(self.pin_uv_auth_param),
            new_pin_enc: bytes_view(self.new_pin_enc),
            pin_hash_enc: bytes_view(self.pin_hash_enc),
            permissions: self.permissions,
            rp_id: text_view(self.rp_id),
        }
    }
}

impl RawRequestView {
    /// Whether the record lacks a field that the operation needs. A
    /// permission field without any permission counts as absent.
    pub open spec fn missing(self, operation: SubCommand) -> bool {
        ||| operation.spec_needs_protocol() && self.pin_uv_auth_protocol is None
        ||| operation.spec_needs_key_agreement() && self.key_agreement is None
        ||| operation.spec_needs_new_pin() && (self.new_pin_enc is None || self.pin_uv_auth_param
            is None)
        ||| operation.spec_needs_pin_hash() && self.pin_hash_enc is None
        ||| operation.spec_needs_permissions() && (self.permissions is None || self.permissions
            == Some(0u8))
    }

    /// Whether a field that the operation needs, all of them being there,
    /// has a value out of range: a version that is none, a byte field of
    /// the wrong length, a permission bit that stands for nothing.
    pub open spec fn invalid(self, operation: SubCommand) -> bool {
        ||| operation.spec_needs_protocol() && Version::spec_parse(self.pin_uv_auth_protocol->0)
            is Err
        ||| operation.spec_needs_new_pin() && (self.new_pin_enc->0.len() != 64
            || self.pin_uv_auth_param->0.len() != 16)
        ||| operation.spec_needs_pin_hash() && self.pin_hash_enc->0.len() != 16
        ||| operation.spec_needs_permissions() && self.permissions->0 >= 64
    }

    /// The request that the record stands for, given the operation and
    /// that nothing is missing or invalid.
    pub open spec fn build(self, operation: SubCommand) -> RequestView {
        let version = Version::spec_parse(self.pin_uv_auth_protocol->0)->Ok_0;
        let key_agreement = self.key_agreement->0;
        match operation {
            SubCommand::GetPinRetries => RequestView::GetPinRetries,
            SubCommand::GetKeyAgreement => RequestView::GetKeyAgreement { version },
            SubCommand::SetPin => RequestView::SetPin {
                version,
                key_agreement,
                new_pin_encrypted: self.new_pin_enc->0,
                pin_uv_auth_param: self.pin_uv_auth_param->0,
            },
            SubCommand::ChangePin => RequestView::ChangePin {
                version,
                key_agreement,
                pin_hash_encrypted: self.pin_hash_enc->0,
                new_pin_encrypted: self.new_pin_enc->0,
                pin_uv_auth_param: self.pin_uv_auth_param->0,
            },
            SubCommand::GetPinToken => RequestView::GetPinToken {
                version,
                key_agreement,
                pin_hash_encrypted: self.pin_hash_enc->0,
            },
            SubCommand::GetPinUvAuthTokenUsingUvWithPermissions => {
                RequestView::GetPinUvAuthTokenUsingUvWithPermissions {
                    version,
                    key_agreement,
                    permissions: spec_from_bits(self.permissions->0),
                    relying_party_id: self.rp_id,
                }
            },
            SubCommand::GetUvRetries => RequestView::GetUvRetries,
            SubCommand::GetPinUvAuthTokenUsingPinWithPermissions => {
                RequestView::GetPinUvAuthTokenUsingPinWithPermissions {
                    version,
                    key_agreement,
                    pin_hash_encrypted: self.pin_hash_enc->0,
                    permissions: spec_from_bits(self.permissions->0),
                    relying_party_id: self.rp_id,
                }
            },
        }
    }

    /// The request that the record stands for, or why it stands for none.
    /// A record that does not name its operation lacks a parameter; one
    /// that names an operation that does not exist has an invalid one.
    pub open spec fn decode(self) -> Result<RequestView, Error> {
        match self.sub_command {
            None => Err(Error::MissingParameter),
            Some(code) => match SubCommand::spec_from_code(code) {
                None => Err(Error::InvalidParameter),
                Some(operation) => if self.missing(operation) {
                    Err(Error::MissingParameter)
                } else if self.invalid(operation) {
                    Err(Error::InvalidParameter)
                } else {
                    Ok(self.build(operation))
                },
            },
        }
    }
}

/// Reading the record of a request gives the request back.
pub proof fn lemma_decode_inverts_encode(request: RequestView)
    requires
        request.well_formed(),
    ensures
        request.encode().decode() == Ok::<RequestView, Error>(request),
{
    let raw = request.encode();
    let operation = request.sub_command();
    assert(SubCommand::spec_from_code(operation.spec_code()) == Some(operation));
    match request {
        RequestView::GetPinUvAuthTokenUsingUvWithPermissions { version, permissions, .. } => {
            lemma_from_bits_inverts_bits(permissions);
            lemma_nonempty_bits(permissions);
        },
        RequestView::GetPinUvAuthTokenUsingPinWithPermissions { version, permissions, .. } => {
            lemma_from_bits_inverts_bits(permissions);
            lemma_nonempty_bits(permissions);
        },
        _ => {},
    }
    assert(!raw.missing(operation));
    assert(!raw.invalid(operation));
    assert(raw.build(operation) == request);
}

/// The record of a request holds the fields that its operation needs and
/// no others; the relying party is in it where the request names one.
pub proof fn lemma_encode_sets_own_fields(request: RequestView)
    ensures
        ({
            let raw = request.encode();
            let operation = request.sub_command();
            &&& raw.sub_command == Some(operation.spec_code())
            &&& raw.pin_uv_auth_protocol is Some <==> operation.spec_needs_protocol()
            &&& raw.key_agreement is Some <==> operation.spec_needs_key_agreement()
            &&& raw.new_pin_enc is Some <==> operation.spec_needs_new_pin()
            &&& raw.pin_uv_auth_param is Some <==> operation.spec_needs_new_pin()
            &&& raw.pin_hash_enc is Some <==> operation.spec_needs_pin_hash()
            &&& raw.permissions is Some <==> operation.spec_needs_permissions()
            &&& raw.rp_id is Some ==> operation.spec_needs_permissions()
        }),
{
}

/// Only the empty set travels as zero.
pub proof fn lemma_nonempty_bits(permissions: Set<Permission>)
    ensures
        spec_bits(permissions) == 0 <==> permissions == Set::<Permission>::empty(),
{
    if spec_bits(permissions) == 0 {
        assert forall|permission: Permission| !permissions.contains(permission) by {
            match permission {
                Permission::MakeCredential => {},
                Permission::GetAssertion => {},
                Permission::CredentialManagement => {},
                Permission::BiometricEnrollment => {},
                Permission::LargeBlobWrite => {},
                Permission::AuthenticatorConfiguration => {},
            }
        }
        assert(permissions =~= Set::<Permission>::empty());
    }
}

/// A record that reads as a request reads as one that may be sent: no
/// record stands for a request for a token without permissions. The
/// request asks for the operation that the record names.
pub proof fn lemma_decoded_is_well_formed(raw: RawRequestView)
    ensures
        raw.decode() matches Ok(request) ==> {
            &&& request.well_formed()
            &&& request.sub_command().spec_code() == raw.sub_command->0
        },
{
    if let Ok(request) = raw.decode() {
        let operation = SubCommand::spec_from_code(raw.sub_command->0)->0;
        assert(request == raw.build(operation));
        if operation.spec_needs_permissions() {
            let bits = raw.permissions->0;
            lemma_bits_inverts_from_bits(bits);
            lemma_nonempty_bits(spec_from_bits(bits));
        }
    }
}

impl Request {
    /// The operation that the request asks for.
    pub fn sub_command(&self) -> (operation: SubCommand)
        ensures
            operation == self@.sub_command(),
    {
        match self {
            Request::GetPinRetries => SubCommand::GetPinRetries,
            Request::GetKeyAgreement { .. } => SubCommand::GetKeyAgreement,
            Request::SetPin { .. } => SubCommand::SetPin,
            Request::ChangePin { .. } => SubCommand::ChangePin,
            Request::GetPinToken { .. } => SubCommand::GetPinToken,
            Request::GetPinUvAuthTokenUsingUvWithPermissions { .. } => {
                SubCommand::GetPinUvAuthTokenUsingUvWithPermissions
            },
            Request::GetUvRetries => SubCommand::GetUvRetries,
            Request::GetPinUvAuthTokenUsingPinWithPermissions { .. } => {
                SubCommand::GetPinUvAuthTokenUsingPinWithPermissions
            },
        }
    }

    /// The record that stands for the request.
    pub fn into_raw(self) -> (raw: RawRequest)
        ensures
            raw@ == self@.encode(),
    {
        let code = self.sub_command().code();
        let mut raw = RawRequest {
            pin_uv_auth_protocol: None,
            sub_command: Some(code),
            key_agreement: None,
            pin_uv_auth_param: None,
            new_pin_enc: None,
            pin_hash_enc: None,
            permissions: None,
            rp_id: None,
        };
        match self {
            Request::GetPinRetries => {},
            Request::GetKeyAgreement { version } => {
                raw.pin_uv_auth_protocol = Some(u8::from(version));
            },
            Request::SetPin { version, key_agreement, new_pin_encrypted, pin_uv_auth_param } => {
                raw.pin_uv_auth_protocol = Some(u8::from(version));
                raw.key_agreement = Some(key_agreement);
                raw.new_pin_enc = Some(slice_to_vec(new_pin_encrypted.as_slice()));
                raw.pin_uv_auth_param = Some(slice_to_vec(pin_uv_auth_param.as_slice()));
            },
            Request::ChangePin {
                version,
                key_agreement,
                pin_hash_encrypted,
                new_pin_encrypted,
                pin_uv_auth_param,
            } => {
                raw.pin_uv_auth_protocol = Some(u8::from(version));
                raw.key_agreement = Some(key_agreement);
                raw.pin_hash_enc = Some(slice_to_vec(pin_hash_encrypted.as_slice()));
                raw.new_pin_enc = Some(slice_to_vec(new_pin_encrypted.as_slice()));
                raw.pin_uv_auth_param = Some(slice_to_vec(pin_uv_auth_param.as_slice()));
            },
            Request::GetPinToken { version, key_agreement, pin_hash_encrypted } => {
                raw.pin_uv_auth_protocol = Some(u8::from(version));
                raw.key_agreement = Some(key_agreement);
                raw.pin_hash_enc = Some(slice_to_vec(pin_hash_encrypted.as_slice()));
            },
            Request::GetPinUvAuthTokenUsingUvWithPermissions {
                version,
                key_agreement,
                permissions,
                relying_party_id,
            } => {
                raw.pin_uv_auth_protocol = Some(u8::from(version));
                raw.key_agreement = Some(key_agreement);
                raw.permissions = Some(permissions.to_bits());
                raw.rp_id = relying_party_id;
            },
            Request::GetUvRetries => {},
            Request::GetPinUvAuthTokenUsingPinWithPermissions {
                version,
                key_agreement,
                pin_hash_encrypted,
                permissions,
                relying_party_id,
            } => {
                raw.pin_uv_auth_protocol = Some(u8::from(version));
                raw.key_agreement = Some(key_agreement);
                raw.pin_hash_enc = Some(slice_to_vec(pin_hash_encrypted.as_slice()));
                raw.permissions = Some(permissions.to_bits());
                raw.rp_id = relying_party_id;
            },
        }
        raw
    }

    /// The request that a record stands for, or the error that says why it
    /// stands for none.
    pub fn from_raw(raw: RawRequest) -> (request: Result<Request, Error>)
        ensures
            match raw@.decode() {
                Ok(view) => request matches Ok(r) && r@ == view,
                Err(error) => request matches Err(e) && e == error,
            },
    {
        let ghost view = raw@;
        let RawRequest {
            pin_uv_auth_protocol,
            sub_command,
            key_agreement,
            pin_uv_auth_param,
            new_pin_enc,
            pin_hash_enc,
            permissions,
            rp_id,
        } = raw;
        let operation = match sub_command {
            None => {
                return Err(Error::MissingParameter);
            },
            Some(code) => match SubCommand::from_code(code) {
                None => {
                    return Err(Error::InvalidParameter);
                },
                Some(operation) => operation,
            },
        };
        let lacks_permissions = match permissions {
            None => true,
            Some(bits) => bits == 0,
        };
        if (operation.needs_protocol() && pin_uv_auth_protocol.is_none()) || (
        operation.needs_key_agreement() && key_agreement.is_none()) || (operation.needs_new_pin()
            && (new_pin_enc.is_none() || pin_uv_auth_param.is_none())) || (
        operation.needs_pin_hash() && pin_hash_enc.is_none()) || (operation.needs_permissions()
            && lacks_permissions) {
            assert(view.missing(operation));
            return Err(Error::MissingParameter);
        }
        assert(!view.missing(operation));
        let version = if operation.needs_protocol() {
            match Version::try_from(pin_uv_auth_protocol.unwrap()) {
                Err(_) => {
                    assert(view.invalid(operation));
                    return Err(Error::InvalidParameter);
                },
                Ok(version) => version,
            }
        } else {
            Version::One
        };
        let (new_pin_encrypted, pin_uv_auth_param) = if operation.needs_new_pin() {
            let new_pin = new_pin_enc.unwrap();
            let param = pin_uv_auth_param.unwrap();
            if new_pin.len() != 64 || param.len() != 16 {
                assert(view.invalid(operation));
                return Err(Error::InvalidParameter);
            }
            assert(new_pin@.take(64) =~= new_pin@ && param@.take(16) =~= param@);
            (prefix::<64>(new_pin.as_slice()), prefix::<16>(param.as_slice()))
        } else {
            ([0u8;64], [0u8;16])
        };
        let pin_hash_encrypted = if operation.needs_pin_hash() {
            let pin_hash = pin_hash_enc.unwrap();
            if pin_hash.len() != 16 {
                assert(view.invalid(operation));
                return Err(Error::InvalidParameter);
            }
            assert(pin_hash@.take(16) =~= pin_hash@);
            prefix::<16>(pin_hash.as_slice())
        } else {
            [0u8;16]
        };
        let permissions = if operation.needs_permissions() {
            match PermissionSet::from_bits(permissions.unwrap()) {
                None => {
                    assert(view.invalid(operation));
                    return Err(Error::InvalidParameter);
                },
                Some(set) => set,
            }
        } else {
            PermissionSet::new()
        };
        assert(!view.invalid(operation));
        let request = match operation {
            SubCommand::GetPinRetries => Request::GetPinRetries,
            SubCommand::GetKeyAgreement => Request::GetKeyAgreement { version },
            SubCommand::SetPin => Request::SetPin {
                version,
                key_agreement: key_agreement.unwrap(),
                new_pin_encrypted,
                pin_uv_auth_param,
            },
            SubCommand::ChangePin => Request::ChangePin {
                version,
                key_agreement: key_agreement.unwrap(),
                pin_hash_encrypted,
                new_pin_encrypted,
                pin_uv_auth_param,
            },
            SubCommand::GetPinToken => Request::GetPinToken {
                version,
                key_agreement: key_agreement.unwrap(),
                pin_hash_encrypted,
            },
            SubCommand::GetPinUvAuthTokenUsingUvWithPermissions => {
                Request::GetPinUvAuthTokenUsingUvWithPermissions {
                    version,
                    key_agreement: key_agreement.unwrap(),
                    permissions,
                    relying_party_id: rp_id,
                }
            },
            SubCommand::GetUvRetries => Request::GetUvRetries,
            SubCommand::GetPinUvAuthTokenUsingPinWithPermissions => {
                Request::GetPinUvAuthTokenUsingPinWithPermissions {
                    version,
                    key_agreement: key_agreement.unwrap(),
                    pin_hash_encrypted,
                    permissions,
                    relying_party_id: rp_id,
                }
            },
        };
        assert(request@ == view.build(operation));
        Ok(request)
    }
}

impl ResponseView {
    /// The operation that the response answers.
    pub open spec fn sub_command(self) -> SubCommand {
        match self {
            ResponseView::GetPinRetries { .. } => SubCommand::GetPinRetries,
            ResponseView::GetKeyAgreement { .. } => SubCommand::GetKeyAgreement,
            ResponseView::SetPin => SubCommand::SetPin,
            ResponseView::ChangePin => SubCommand::ChangePin,
            ResponseView::GetPinToken { .. } => SubCommand::GetPinToken,
            ResponseView::GetPinUvAuthTokenUsingUvWithPermissions { .. } => {
                SubCommand::GetPinUvAuthTokenUsingUvWithPermissions
            },
            ResponseView::GetUvRetries { .. } => SubCommand::GetUvRetries,
            ResponseView::GetPinUvAuthTokenUsingPinWithPermissions { .. } => {
                SubCommand::GetPinUvAuthTokenUsingPinWithPermissions
            },
        }
    }

    /// The response to `operation` that carries `token`.
    pub open spec fn with_token(operation: SubCommand, token: Seq<u8>) -> ResponseView {
        match operation {
            SubCommand::GetPinUvAuthTokenUsingUvWithPermissions => {
                ResponseView::GetPinUvAuthTokenUsingUvWithPermissions { pin_uv_auth_token: token }
            },
            SubCommand::GetPinUvAuthTokenUsingPinWithPermissions => {
                ResponseView::GetPinUvAuthTokenUsingPinWithPermissions { pin_uv_auth_token: token }
            },
            _ => ResponseView::GetPinToken { pin_uv_auth_token: token },
        }
    }

    /// The record that stands for the response. A field that the response
    /// does not have is absent from it.
    pub open spec fn encode(self) -> RawResponseView {
        let none = RawResponseView {
            key_agreement: None,
            pin_uv_auth_token: None,
            pin_retries: None,
            power_cycle_state: None,
            uv_retries: None,
        };
        match self {
            ResponseView::GetPinRetries { pin_retries, power_cycle_state } => RawResponseView {
                pin_retries: Some(pin_retries),
                power_cycle_state,
                ..none
            },
            ResponseView::GetKeyAgreement { key_agreement } => RawResponseView {
                key_agreement: Some(key_agreement),
                ..none
            },
            ResponseView::SetPin => none,
            ResponseView::ChangePin => none,
            ResponseView::GetPinToken { pin_uv_auth_token } => RawResponseView {
                pin_uv_auth_token: Some(pin_uv_auth_token),
                ..none
            },
            ResponseView::GetPinUvAuthTokenUsingUvWithPermissions { pin_uv_auth_token } => {
                RawResponseView { pin_uv_auth_token: Some(pin_uv_auth_token), ..none }
            },
            ResponseView::GetUvRetries { uv_retries } => RawResponseView {
                uv_retries: Some(uv_retries),
                ..none
            },
            ResponseView::GetPinUvAuthTokenUsingPinWithPermissions { pin_uv_auth_token } => {
                RawResponseView { pin_uv_auth_token: Some(pin_uv_auth_token), ..none }
            },
        }
    }
}

/// A response as it travels.
#[derive(Debug)]
pub struct RawResponse {
    pub key_agreement: Option<cosey::PublicKey>,
    pub pin_uv_auth_token: Option<Vec<u8>>,
    pub pin_retries: Option<usize>,
    pub power_cycle_state: Option<usize>,
    pub uv_retries: Option<usize>,
}

/// A response as it travels, as a mathematical value.
pub struct RawResponseView {
    pub key_agreement: Option<cosey::PublicKey>,
    pub pin_uv_auth_token: Option<Seq<u8>>,
    pub pin_retries: Option<nat>,
    pub power_cycle_state: Option<nat>,
    pub uv_retries: Option<nat>,
}

impl Clone for RawResponse {
    fn clone(&self) -> (copy: Self)
        ensures
            copy@ == self@,
    {
        RawResponse {
            key_agreement: copy_of_key(&self.key_agreement),
            pin_uv_auth_token: copy_of_bytes(&self.pin_uv_auth_token),
            pin_retries: self.pin_retries,
            power_cycle_state: self.power_cycle_state,
            uv_retries: self.uv_retries,
        }
    }
}

impl View for RawResponse {
    type V = RawResponseView;

    open spec fn view(&self) -> RawResponseView {
        RawResponseView {
            key_agreement: self.key_agreement,
            pin_uv_auth_token: bytes_view(self.pin_uv_auth_token),
            pin_retries: count_view(self.pin_retries),
            power_cycle_state: count_view(self.power_cycle_state),
            uv_retries: count_view(self.uv_retries),
        }
    }
}

impl RawResponseView {
    /// The response to `operation` that the record stands for, or why it
    /// stands for none: the field that the response must have is a missing
    /// parameter where it is absent, and an invalid one where it holds a
    /// token of a length that no token has, or a count of user
    /// verification attempts that is not between 1 and 25.
    pub open spec fn decode(self, operation: SubCommand) -> Result<ResponseView, Error> {
        match operation {
            SubCommand::GetPinRetries => match self.pin_retries {
                None => Err(Error::MissingParameter),
                Some(pin_retries) => Ok(
                    ResponseView::GetPinRetries {
                        pin_retries,
                        power_cycle_state: self.power_cycle_state,
                    },
                ),
            },
            SubCommand::GetKeyAgreement => match self.key_agreement {
                None => Err(Error::MissingParameter),
                Some(key_agreement) => Ok(ResponseView::GetKeyAgreement { key_agreement }),
            },
            SubCommand::SetPin => Ok(ResponseView::SetPin),
            SubCommand::ChangePin => Ok(ResponseView::ChangePin),
            SubCommand::GetUvRetries => match self.uv_retries {
                None => Err(Error::MissingParameter),
                Some(uv_retries) => if 1 <= uv_retries <= 25 {
                    Ok(ResponseView::GetUvRetries { uv_retries })
                } else {
                    Err(Error::InvalidParameter)
                },
            },
            _ => match self.pin_uv_auth_token {
                None => Err(Error::MissingParameter),
                Some(token) => if token.len() == 16 || token.len() == 32 {
                    Ok(ResponseView::with_token(operation, token))
                } else {
                    Err(Error::InvalidParameter)
                },
            },
        }
    }
}

/// Reading the record of a response, as the answer to the operation that
/// it answers, gives the response back.
pub proof fn lemma_response_decode_inverts_encode(response: ResponseView)
    requires
        response.well_formed(),
    ensures
        response.encode().decode(response.sub_command()) == Ok::<ResponseView, Error>(response),
{
}

impl Response {
    /// The operation that the response answers.
    pub fn sub_command(&self) -> (operation: SubCommand)
        ensures
            operation == self@.sub_command(),
    {
        match self {
            Response::GetPinRetries { .. } => SubCommand::GetPinRetries,
            Response::GetKeyAgreement { .. } => SubCommand::GetKeyAgreement,
            Response::SetPin => SubCommand::SetPin,
            Response::ChangePin => SubCommand::ChangePin,
            Response::GetPinToken { .. } => SubCommand::GetPinToken,
            Response::GetPinUvAuthTokenUsingUvWithPermissions { .. } => {
                SubCommand::GetPinUvAuthTokenUsingUvWithPermissions
            },
            Response::GetUvRetries { .. } => SubCommand::GetUvRetries,
            Response::GetPinUvAuthTokenUsingPinWithPermissions { .. } => {
                SubCommand::GetPinUvAuthTokenUsingPinWithPermissions
            },
        }
    }

    /// The record that stands for the response.
    pub fn into_raw(self) -> (raw: RawResponse)
        ensures
            raw@ == self@.encode(),
            self@.well_formed(),
    {
        let mut raw = RawResponse {
            key_agreement: None,
            pin_uv_auth_token: None,
            pin_retries: None,
            power_cycle_state: None,
            uv_retries: None,
        };
        match self {
            Response::GetPinRetries { pin_retries, power_cycle_state } => {
                raw.pin_retries = Some(pin_retries);
                raw.power_cycle_state = power_cycle_state;
            },
            Response::GetKeyAgreement { key_agreement } => {
                raw.key_agreement = Some(key_agreement);
            },
            Response::SetPin => {},
            Response::ChangePin => {},
            Response::GetPinToken { pin_uv_auth_token } => {
                proof {
                    lemma_token_length(pin_uv_auth_token);
                }
                raw.pin_uv_auth_token = Some(slice_to_vec(pin_uv_auth_token.as_ref()));
            },
            Response::GetPinUvAuthTokenUsingUvWithPermissions { pin_uv_auth_token } => {
                proof {
                    lemma_token_length(pin_uv_auth_token);
                }
                raw.pin_uv_auth_token = Some(slice_to_vec(pin_uv_auth_token.as_ref()));
            },
            Response::GetUvRetries { uv_retries } => {
                raw.uv_retries = Some(uv_retries.get());
            },
            Response::GetPinUvAuthTokenUsingPinWithPermissions { pin_uv_auth_token } => {
                proof {
                    lemma_token_length(pin_uv_auth_token);
                }
                raw.pin_uv_auth_token = Some(slice_to_vec(pin_uv_auth_token.as_ref()));
            },
        }
        raw
    }

    /// The response to `operation` that a record stands for, or the error
    /// that says why it stands for none.
    pub fn from_raw(raw: RawResponse, operation: SubCommand) -> (response: Result<Response, Error>)
        ensures
            match raw@.decode(operation) {
                Ok(view) => response matches Ok(r) && r@ == view,
                Err(error) => response matches Err(e) && e == error,
            },
    {
        let RawResponse {
            key_agreement,
            pin_uv_auth_token,
            pin_retries,
            power_cycle_state,
            uv_retries,
        } = raw;
        match operation {
            SubCommand::GetPinRetries => match pin_retries {
                None => Err(Error::MissingParameter),
                Some(pin_retries) => Ok(Response::GetPinRetries { pin_retries, power_cycle_state }),
            },
            SubCommand::GetKeyAgreement => match key_agreement {
                None => Err(Error::MissingParameter),
                Some(key_agreement) => Ok(Response::GetKeyAgreement { key_agreement }),
            },
            SubCommand::SetPin => Ok(Response::SetPin),
            SubCommand::ChangePin => Ok(Response::ChangePin),
            SubCommand::GetUvRetries => match uv_retries {
                None => Err(Error::MissingParameter),
                Some(count) => match UvRetries::new(count) {
                    None => Err(Error::InvalidParameter),
                    Some(uv_retries) => Ok(Response::GetUvRetries { uv_retries }),
                },
            },
            _ => match pin_uv_auth_token {
                None => Err(Error::MissingParameter),
                Some(bytes) => match PinUvAuthToken::try_from(bytes.as_slice()) {
                    Err(error) => Err(error),
                    Ok(pin_uv_auth_token) => Ok(
                        match operation {
                            SubCommand::GetPinUvAuthTokenUsingUvWithPermissions => {
                                Response::GetPinUvAuthTokenUsingUvWithPermissions {
                                    pin_uv_auth_token,
                                }
                            },
                            SubCommand::GetPinUvAuthTokenUsingPinWithPermissions => {
                                Response::GetPinUvAuthTokenUsingPinWithPermissions {
                                    pin_uv_auth_token,
                                }
                            },
                            _ => Response::GetPinToken { pin_uv_auth_token },
                        },
                    ),
                },
            },
        }
    }
}

} // verus!
