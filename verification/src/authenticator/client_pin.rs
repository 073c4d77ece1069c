//! The client-PIN command: its requests, responses and errors, and the token
//! that it issues.

use crate::authenticator::client_pin::auth_protocol::Version;
use crate::authenticator::client_pin::bytes::prefix;
use crate::authenticator::client_pin::permissions::PermissionSet;
use vstd::prelude::*;

pub mod auth_protocol;
mod bytes;
pub mod permissions;
pub mod raw;
pub mod state;

pub use crate::authenticator::client_pin::permissions::Permission;

verus! {

/// The public key of `cosey`, in COSE form. The library reads nothing in
/// it: a key is taken in, kept and handed on as it is.
#[verifier::external_type_specification]
#[verifier::external_body]
pub struct ExPublicKey(cosey::PublicKey);

/// `cosey::PublicKey` derives `Clone`, over fields that are byte arrays: the
/// copy is the same key.
pub assume_specification[ <cosey::PublicKey as Clone>::clone ](key: &cosey::PublicKey) -> (copy:
    cosey::PublicKey)
    ensures
        copy == *key,
;

/// The authentication parameter of a command: a tag of sixteen bytes.
pub type PinUvAuthParam = [u8; 16];

/// The ways in which a client-PIN command fails.
#[derive(Debug, Clone, Copy, PartialEq, Eq, Structural)]
pub enum Error {
    MissingParameter,
    InvalidParameter,
    PinAuthInvalid,
    PinPolicyViolation,
    PinBlocked,
    PinAuthBlocked,
    PinInvalid,
    OperationDenied,
    UnauthorizedPermission,
    NotAllowed,
    UserVerificationBlocked,
    UserActionTimeout,
    UserVerificationInvalid,
}

impl Error {
    /// The words in which the error is shown.
    pub open spec fn spec_message(self) -> Seq<char> {
        match self {
            Error::MissingParameter => "Missing parameter"@,
            Error::InvalidParameter => "Invalid parameter"@,
            Error::PinAuthInvalid => "PIN auth invalid"@,
            Error::PinPolicyViolation => "PIN policy violation"@,
            Error::PinBlocked => "PIN blocked"@,
            Error::PinAuthBlocked => "PIN auth blocked"@,
            Error::PinInvalid => "PIN invalid"@,
            Error::OperationDenied => "Operation denied"@,
            Error::UnauthorizedPermission => "Unauthorized permission"@,
            Error::NotAllowed => "Not allowed"@,
            Error::UserVerificationBlocked => "User verification blocked"@,
            Error::UserActionTimeout => "User action timeout"@,
            Error::UserVerificationInvalid => "User verification invalid"@,
        }
    }

    /// The words in which the error is shown.
    pub fn message(&self) -> (message: &'static str)
        ensures
            message@ == self.spec_message(),
    {
        match self {
            Error::MissingParameter => "Missing parameter",
            Error::InvalidParameter => "Invalid parameter",
            Error::PinAuthInvalid => "PIN auth invalid",
            Error::PinPolicyViolation => "PIN policy violation",
            Error::PinBlocked => "PIN blocked",
            Error::PinAuthBlocked => "PIN auth blocked",
            Error::PinInvalid => "PIN invalid",
            Error::OperationDenied => "Operation denied",
            Error::UnauthorizedPermission => "Unauthorized permission",
            Error::NotAllowed => "Not allowed",
            Error::UserVerificationBlocked => "User verification blocked",
            Error::UserActionTimeout => "User action timeout",
            Error::UserVerificationInvalid => "User verification invalid",
        }
    }

    /// The words in which the error is shown, as a string of its own.
    pub fn to_string(&self) -> (message: String)
        ensures
            message@ == self.spec_message(),
    {
        self.message().to_owned()
    }
}

/// The secret that a successful PIN or user verification is exchanged for.
/// It has sixteen bytes under version one of the protocol and thirty-two
/// under version two.
#[derive(Clone, Copy, Debug)]
pub enum PinUvAuthToken {
    Short([u8; 16]),
    Long([u8; 32]),
}

impl View for PinUvAuthToken {
    type V = Seq<u8>;

    open spec fn view(&self) -> Seq<u8> {
        match *self {
            PinUvAuthToken::Short(bytes) => bytes@,
            PinUvAuthToken::Long(bytes) => bytes@,
        }
    }
}

impl PinUvAuthToken {
    /// The version of the protocol under which a token of this size is
    /// issued.
    pub open spec fn spec_version(self) -> Version {
        match self {
            PinUvAuthToken::Short(_) => Version::One,
            PinUvAuthToken::Long(_) => Version::Two,
        }
    }

    /// The token made of the given bytes: there is one for sixteen bytes and
    /// one for thirty-two, and none for any other number.
    pub open spec fn spec_from_bytes(bytes: Seq<u8>) -> Result<PinUvAuthToken, Error> {
        if bytes.len() == 16 || bytes.len() == 32 {
            Ok(choose|token: PinUvAuthToken| token@ == bytes)
        } else {
            Err(Error::InvalidParameter)
        }
    }

    /// The token of the size that `version` calls for, made of the first
    /// bytes of `entropy`.
    pub open spec fn spec_from_entropy(version: Version, entropy: Seq<u8>) -> PinUvAuthToken {
        choose|token: PinUvAuthToken| token@ == entropy.take(version.spec_token_length() as int)
    }

    /// The version of the protocol under which a token of this size is
    /// issued.
    #[verifier::when_used_as_spec(spec_version)]
    pub fn version(self) -> (version: Version)
        ensures
            version == self.spec_version(),
            self@.len() == version.spec_token_length(),
    {
        match self {
            PinUvAuthToken::Short(_) => Version::One,
            PinUvAuthToken::Long(_) => Version::Two,
        }
    }

    /// A token of the size that `version` calls for, made of the first bytes
    /// of `entropy`, which must come from a random source.
    pub fn from_entropy(version: Version, entropy: &[u8; 32]) -> (token: PinUvAuthToken)
        ensures
            token == PinUvAuthToken::spec_from_entropy(version, entropy@),
            token.spec_version() == version,
            token@ == entropy@.take(version.spec_token_length() as int),
            token@.len() == version.spec_token_length(),
    {
        let token = match version {
            Version::One => PinUvAuthToken::Short(prefix::<16>(entropy.as_slice())),
            Version::Two => {
                assert(entropy@.take(32) =~= entropy@);
                PinUvAuthToken::Long(*entropy)
            },
        };
        proof {
            let chosen = PinUvAuthToken::spec_from_entropy(version, entropy@);
            lemma_token_by_bytes(chosen, token);
        }
        token
    }
}

/// A token is as long as the version that it belongs to says, which is
/// sixteen or thirty-two bytes; two tokens of the same bytes are the same
/// token.
pub proof fn lemma_token_length(token: PinUvAuthToken)
    ensures
        token@.len() == token.spec_version().spec_token_length(),
        token@.len() == 16 || token@.len() == 32,
        PinUvAuthToken::spec_from_bytes(token@) == Ok::<PinUvAuthToken, Error>(token),
{
    let chosen = choose|other: PinUvAuthToken| other@ == token@;
    lemma_token_by_bytes(chosen, token);
}

/// An array whose first `count` bytes are those of `bytes`.
spec fn array_of<const N: usize>(bytes: Seq<u8>, count: nat) -> [u8; N]
    decreases count,
{
    if count == 0 {
        vstd::array::spec_array_fill_for_copy_type::<u8, N>(0u8)
    } else {
        vstd::array::spec_array_update(
            array_of::<N>(bytes, (count - 1) as nat),
            count - 1,
            bytes[count - 1],
        )
    }
}

proof fn lemma_array_of<const N: usize>(bytes: Seq<u8>, count: nat)
    requires
        count <= N <= bytes.len(),
    ensures
        array_of::<N>(bytes, count)@.len() == N,
        forall|i: int| 0 <= i < count ==> array_of::<N>(bytes, count)@[i] == bytes[i],
    decreases count,
{
    broadcast use vstd::array::group_array_axioms;

    if count > 0 {
        lemma_array_of::<N>(bytes, (count - 1) as nat);
    }
}

/// The token that is issued from fresh bytes belongs to the version that
/// it was issued for: it has the length that the version calls for, which
/// is sixteen or thirty-two bytes, and is made of the first bytes of the
/// fresh ones.
pub proof fn lemma_token_from_entropy(version: Version, entropy: Seq<u8>)
    requires
        entropy.len() == 32,
    ensures
        PinUvAuthToken::spec_from_entropy(version, entropy).spec_version() == version,
        PinUvAuthToken::spec_from_entropy(version, entropy)@.len() == version.spec_token_length(),
        PinUvAuthToken::spec_from_entropy(version, entropy)@ == entropy.take(
            version.spec_token_length() as int,
        ),
        version.spec_token_length() == 16 || version.spec_token_length() == 32,
{
    let bytes = entropy.take(version.spec_token_length() as int);
    let witness = match version {
        Version::One => {
            lemma_array_of::<16>(bytes, 16);
            PinUvAuthToken::Short(array_of::<16>(bytes, 16))
        },
        Version::Two => {
            lemma_array_of::<32>(bytes, 32);
            PinUvAuthToken::Long(array_of::<32>(bytes, 32))
        },
    };
    assert(witness@ =~= bytes);
    let token = PinUvAuthToken::spec_from_entropy(version, entropy);
    assert(token@ == bytes);
    lemma_token_by_bytes(token, witness);
}

/// Two tokens of the same bytes are the same token.
pub proof fn lemma_token_by_bytes(a: PinUvAuthToken, b: PinUvAuthToken)
    requires
        a@ == b@,
    ensures
        a == b,
{
    match (a, b) {
        (PinUvAuthToken::Short(x), PinUvAuthToken::Short(y)) => {
            assert(x =~= y);
        },
        (PinUvAuthToken::Long(x), PinUvAuthToken::Long(y)) => {
            assert(x =~= y);
        },
        (PinUvAuthToken::Short(x), PinUvAuthToken::Long(y)) => {
            assert(x@.len() == 16 && y@.len() == 32);
        },
        (PinUvAuthToken::Long(x), PinUvAuthToken::Short(y)) => {
            assert(x@.len() == 32 && y@.len() == 16);
        },
    }
}

impl AsRef<[u8]> for PinUvAuthToken {
    fn as_ref(&self) -> (bytes: &[u8])
        ensures
            bytes@ == self@,
    {
        match self {
            PinUvAuthToken::Short(bytes) => bytes.as_slice(),
            PinUvAuthToken::Long(bytes) => bytes.as_slice(),
        }
    }
}

impl<'a> TryFrom<&'a [u8]> for PinUvAuthToken {
    type Error = Error;

    fn try_from(value: &'a [u8]) -> (parsed: Result<Self, Error>)
        ensures
            parsed == PinUvAuthToken::spec_from_bytes(value@),
            parsed is Ok <==> value@.len() == 16 || value@.len() == 32,
            parsed matches Ok(token) ==> token@ == value@,
            parsed matches Err(e) ==> e == Error::InvalidParameter,
    {
        let length = value.len();
        if length == 16 {
            let token = PinUvAuthToken::Short(prefix::<16>(value));
            proof {
                assert(value@.take(16) =~= value@);
                lemma_token_length(token);
            }
            Ok(token)
        } else if length == 32 {
            let token = PinUvAuthToken::Long(prefix::<32>(value));
            proof {
                assert(value@.take(32) =~= value@);
                lemma_token_length(token);
            }
            Ok(token)
        } else {
            Err(Error::InvalidParameter)
        }
    }
}

impl<'a> vstd::std_specs::convert::TryFromSpecImpl<&'a [u8]> for PinUvAuthToken {
    open spec fn obeys_try_from_spec() -> bool {
        true
    }

    open spec fn try_from_spec(value: &'a [u8]) -> Result<Self, Error> {
        PinUvAuthToken::spec_from_bytes(value@)
    }
}

/// The number of user verification attempts that are left: at least 1 and
/// at most 25.
#[derive(Debug, Clone, Copy)]
pub struct UvRetries {
    count: usize,
}

impl View for UvRetries {
    type V = nat;

    closed spec fn view(&self) -> nat {
        self.count as nat
    }
}

impl UvRetries {
    /// The smallest count.
    pub const MIN_VALUE: usize = 1;

    /// The largest count.
    pub const MAX_VALUE: usize = 25;

    /// The count is at least 1 and at most 25.
    #[verifier::type_invariant]
    pub closed spec fn in_range(&self) -> bool {
        1 <= self.count <= 25
    }

    /// The count `n`, where it is in range.
    pub fn new(n: usize) -> (retries: Option<UvRetries>)
        ensures
            retries is Some <==> 1 <= n <= 25,
            retries matches Some(r) ==> r@ == n && r.in_range(),
    {
        if 1 <= n && n <= 25 {
            Some(UvRetries { count: n })
        } else {
            None
        }
    }

    /// The count as a plain number.
    pub fn get(self) -> (n: usize)
        ensures
            n == self@,
            1 <= n <= 25,
    {
        proof {
            use_type_invariant(self);
        }
        self.count
    }
}

/// What a platform asks of an authenticator with the client-PIN command.
/// Each request carries the fields of its operation and no others.
#[derive(Debug)]
pub enum Request {
    GetPinRetries,
    GetKeyAgreement { version: Version },
    SetPin {
        version: Version,
        key_agreement: cosey::PublicKey,
        new_pin_encrypted: [u8; 64],
        pin_uv_auth_param: PinUvAuthParam,
    },
    ChangePin {
        version: Version,
        key_agreement: cosey::PublicKey,
        pin_hash_encrypted: [u8; 16],
        new_pin_encrypted: [u8; 64],
        pin_uv_auth_param: PinUvAuthParam,
    },
    GetPinToken {
        version: Version,
        key_agreement: cosey::PublicKey,
        pin_hash_encrypted: [u8; 16],
    },
    GetPinUvAuthTokenUsingUvWithPermissions {
        version: Version,
        key_agreement: cosey::PublicKey,
        permissions: PermissionSet,
        relying_party_id: Option<String>,
    },
    GetUvRetries,
    GetPinUvAuthTokenUsingPinWithPermissions {
        version: Version,
        key_agreement: cosey::PublicKey,
        pin_hash_encrypted: [u8; 16],
        permissions: PermissionSet,
        relying_party_id: Option<String>,
    },
}

/// A request as a mathematical value.
pub enum RequestView {
    GetPinRetries,
    GetKeyAgreement { version: Version },
    SetPin {
        version: Version,
        key_agreement: cosey::PublicKey,
        new_pin_encrypted: Seq<u8>,
        pin_uv_auth_param: Seq<u8>,
    },
    ChangePin {
        version: Version,
        key_agreement: cosey::PublicKey,
        pin_hash_encrypted: Seq<u8>,
        new_pin_encrypted: Seq<u8>,
        pin_uv_auth_param: Seq<u8>,
    },
    GetPinToken { version: Version, key_agreement: cosey::PublicKey, pin_hash_encrypted: Seq<u8> },
    GetPinUvAuthTokenUsingUvWithPermissions {
        version: Version,
        key_agreement: cosey::PublicKey,
        permissions: Set<Permission>,
        relying_party_id: Option<Seq<char>>,
    },
    GetUvRetries,
    GetPinUvAuthTokenUsingPinWithPermissions {
        version: Version,
        key_agreement: cosey::PublicKey,
        pin_hash_encrypted: Seq<u8>,
        permissions: Set<Permission>,
        relying_party_id: Option<Seq<char>>,
    },
}

/// The characters of a string that may be absent.
pub open spec fn text_view(text: Option<String>) -> Option<Seq<char>> {
    match text {
        Some(t) => Some(t@),
        None => None,
    }
}

impl View for Request {
    type V = RequestView;

    open spec fn view(&self) -> RequestView {
        match *self {
            Request::GetPinRetries => RequestView::GetPinRetries,
            Request::GetKeyAgreement { version } => RequestView::GetKeyAgreement { version },
            Request::SetPin { version, key_agreement, new_pin_encrypted, pin_uv_auth_param } => {
                RequestView::SetPin {
                    version,
                    key_agreement,
                    new_pin_encrypted: new_pin_encrypted@,
                    pin_uv_auth_param: pin_uv_auth_param@,
                }
            },
            Request::ChangePin {
                version,
                key_agreement,
                pin_hash_encrypted,
                new_pin_encrypted,
                pin_uv_auth_param,
            } => RequestView::ChangePin {
                version,
                key_agreement,
                pin_hash_encrypted: pin_hash_encrypted@,
                new_pin_encrypted: new_pin_encrypted@,
                pin_uv_auth_param: pin_uv_auth_param@,
            },
            Request::GetPinToken { version, key_agreement, pin_hash_encrypted } => {
                RequestView::GetPinToken {
                    version,
                    key_agreement,
                    pin_hash_encrypted: pin_hash_encrypted@,
                }
            },
            Request::GetPinUvAuthTokenUsingUvWithPermissions {
                version,
                key_agreement,
                permissions,
                relying_party_id,
            } => RequestView::GetPinUvAuthTokenUsingUvWithPermissions {
                version,
                key_agreement,
                permissions: permissions@,
                relying_party_id: text_view(relying_party_id),
            },
            Request::GetUvRetries => RequestView::GetUvRetries,
            Request::GetPinUvAuthTokenUsingPinWithPermissions {
                version,
                key_agreement,
                pin_hash_encrypted,
                permissions,
                relying_party_id,
            } => RequestView::GetPinUvAuthTokenUsingPinWithPermissions {
                version,
                key_agreement,
                pin_hash_encrypted: pin_hash_encrypted@,
                permissions: permissions@,
                relying_party_id: text_view(relying_party_id),
            },
        }
    }
}

impl RequestView {
    /// Whether the request asks for a token with no permission at all,
    /// which no authenticator may be asked for.
    pub open spec fn lacks_permissions(self) -> bool {
        match self {
            RequestView::GetPinUvAuthTokenUsingUvWithPermissions { permissions, .. } => permissions
                == Set::<Permission>::empty(),
            RequestView::GetPinUvAuthTokenUsingPinWithPermissions {
                permissions,
                ..
            } => permissions == Set::<Permission>::empty(),
            _ => false,
        }
    }

    /// Whether the value is the view of a request that may be sent: the
    /// byte fields have their lengths, and a request for a token names a
    /// permission.
    pub open spec fn well_formed(self) -> bool {
        &&& !self.lacks_permissions()
        &&& match self {
            RequestView::SetPin { new_pin_encrypted, pin_uv_auth_param, .. } => {
                new_pin_encrypted.len() == 64 && pin_uv_auth_param.len() == 16
            },
            RequestView::ChangePin {
                pin_hash_encrypted,
                new_pin_encrypted,
                pin_uv_auth_param,
                ..
            } => {
                pin_hash_encrypted.len() == 16 && new_pin_encrypted.len() == 64
                    && pin_uv_auth_param.len() == 16
            },
            RequestView::GetPinToken { pin_hash_encrypted, .. } => pin_hash_encrypted.len() == 16,
            RequestView::GetPinUvAuthTokenUsingPinWithPermissions { pin_hash_encrypted, .. } => {
                pin_hash_encrypted.len() == 16
            },
            _ => true,
        }
    }
}

/// A response as a mathematical value.
pub enum ResponseView {
    GetPinRetries { pin_retries: nat, power_cycle_state: Option<nat> },
    GetKeyAgreement { key_agreement: cosey::PublicKey },
    SetPin,
    ChangePin,
    GetPinToken { pin_uv_auth_token: Seq<u8> },
    GetPinUvAuthTokenUsingUvWithPermissions { pin_uv_auth_token: Seq<u8> },
    GetUvRetries { uv_retries: nat },
    GetPinUvAuthTokenUsingPinWithPermissions { pin_uv_auth_token: Seq<u8> },
}

/// A count that may be absent, as a mathematical value.
pub open spec fn count_view(count: Option<usize>) -> Option<nat> {
    match count {
        Some(n) => Some(n as nat),
        None => None,
    }
}

impl View for Response {
    type V = ResponseView;

    open spec fn view(&self) -> ResponseView {
        match *self {
            Response::GetPinRetries { pin_retries, power_cycle_state } => {
                ResponseView::GetPinRetries {
                    pin_retries: pin_retries as nat,
                    power_cycle_state: count_view(power_cycle_state),
                }
            },
            Response::GetKeyAgreement { key_agreement } => ResponseView::GetKeyAgreement {
                key_agreement,
            },
            Response::SetPin => ResponseView::SetPin,
            Response::ChangePin => ResponseView::ChangePin,
            Response::GetPinToken { pin_uv_auth_token } => ResponseView::GetPinToken {
                pin_uv_auth_token: pin_uv_auth_token@,
            },
            Response::GetPinUvAuthTokenUsingUvWithPermissions { pin_uv_auth_token } => {
                ResponseView::GetPinUvAuthTokenUsingUvWithPermissions {
                    pin_uv_auth_token: pin_uv_auth_token@,
                }
            },
            Response::GetUvRetries { uv_retries } => ResponseView::GetUvRetries {
                uv_retries: uv_retries@,
            },
            Response::GetPinUvAuthTokenUsingPinWithPermissions { pin_uv_auth_token } => {
                ResponseView::GetPinUvAuthTokenUsingPinWithPermissions {
                    pin_uv_auth_token: pin_uv_auth_token@,
                }
            },
        }
    }
}

impl ResponseView {
    /// Whether the value is the view of a response: a token has sixteen or
    /// thirty-two bytes, counts fit the machine, and the count of user
    /// verification attempts is between 1 and 25.
    pub open spec fn well_formed(self) -> bool {
        match self {
            ResponseView::GetPinRetries { pin_retries, power_cycle_state } => {
                pin_retries <= usize::MAX && match power_cycle_state {
                    Some(n) => n <= usize::MAX,
                    None => true,
                }
            },
            ResponseView::GetPinToken { pin_uv_auth_token } => {
                pin_uv_auth_token.len() == 16 || pin_uv_auth_token.len() == 32
            },
            ResponseView::GetPinUvAuthTokenUsingUvWithPermissions { pin_uv_auth_token } => {
                pin_uv_auth_token.len() == 16 || pin_uv_auth_token.len() == 32
            },
            ResponseView::GetPinUvAuthTokenUsingPinWithPermissions { pin_uv_auth_token } => {
                pin_uv_auth_token.len() == 16 || pin_uv_auth_token.len() == 32
            },
            ResponseView::GetUvRetries { uv_retries } => 1 <= uv_retries <= 25,
            _ => true,
        }
    }
}

/// A copy of a string that may be absent.
pub(crate) fn copy_of_text(text: &Option<String>) -> (copy: Option<String>)
    ensures
        text_view(copy) == text_view(*text),
{
    match text {
        Some(t) => Some(t.clone()),
        None => None,
    }
}

impl Clone for Request {
    fn clone(&self) -> (copy: Self)
        ensures
            copy@ == self@,
    {
        match self {
            Request::GetPinRetries => Request::GetPinRetries,
            Request::GetKeyAgreement { version } => Request::GetKeyAgreement { version: *version },
            Request::SetPin { version, key_agreement, new_pin_encrypted, pin_uv_auth_param } => {
                Request::SetPin {
                    version: *version,
                    key_agreement: key_agreement.clone(),
                    new_pin_encrypted: *new_pin_encrypted,
                    pin_uv_auth_param: *pin_uv_auth_param,
                }
            },
            Request::ChangePin {
                version,
                key_agreement,
                pin_hash_encrypted,
                new_pin_encrypted,
                pin_uv_auth_param,
            } => Request::ChangePin {
                version: *version,
                key_agreement: key_agreement.clone(),
                pin_hash_encrypted: *pin_hash_encrypted,
                new_pin_encrypted: *new_pin_encrypted,
                pin_uv_auth_param: *pin_uv_auth_param,
            },
            Request::GetPinToken { version, key_agreement, pin_hash_encrypted } => {
                Request::GetPinToken {
                    version: *version,
                    key_agreement: key_agreement.clone(),
                    pin_hash_encrypted: *pin_hash_encrypted,
                }
            },
            Request::GetPinUvAuthTokenUsingUvWithPermissions {
                version,
                key_agreement,
                permissions,
                relying_party_id,
            } => Request::GetPinUvAuthTokenUsingUvWithPermissions {
                version: *version,
                key_agreement: key_agreement.clone(),
                permissions: permissions.clone(),
                relying_party_id: copy_of_text(relying_party_id),
            },
            Request::GetUvRetries => Request::GetUvRetries,
            Request::GetPinUvAuthTokenUsingPinWithPermissions {
                version,
                key_agreement,
                pin_hash_encrypted,
                permissions,
                relying_party_id,
            } => Request::GetPinUvAuthTokenUsingPinWithPermissions {
                version: *version,
                key_agreement: key_agreement.clone(),
                pin_hash_encrypted: *pin_hash_encrypted,
                permissions: permissions.clone(),
                relying_party_id: copy_of_text(relying_party_id),
            },
        }
    }
}

impl Request {
    /// Whether the request asks for a token with no permission at all,
    /// which no authenticator may be asked for.
    pub open spec fn spec_lacks_permissions(&self) -> bool {
        self@.lacks_permissions()
    }

    /// Refuses a request for a token without permissions, as a missing
    /// parameter. Nothing but the request is looked at, so the test can and
    /// must come before any key agreement or decryption.
    pub fn validate(&self) -> (checked: Result<(), Error>)
        ensures
            checked == if self.spec_lacks_permissions() {
                Err::<(), Error>(Error::MissingParameter)
            } else {
                Ok::<(), Error>(())
            },
            checked is Ok <==> self@.well_formed(),
    {
        match self {
            Request::GetPinUvAuthTokenUsingUvWithPermissions { permissions, .. } => {
                if permissions.is_empty() {
                    Err(Error::MissingParameter)
                } else {
                    Ok(())
                }
            },
            Request::GetPinUvAuthTokenUsingPinWithPermissions { permissions, .. } => {
                if permissions.is_empty() {
                    Err(Error::MissingParameter)
                } else {
                    Ok(())
                }
            },
            _ => Ok(()),
        }
    }

    /// The request for a token after user verification on the
    /// authenticator. An empty permission set is refused as a missing
    /// parameter.
    pub fn get_pin_uv_auth_token_using_uv_with_permissions(
        version: Version,
        key_agreement: cosey::PublicKey,
        permissions: PermissionSet,
        relying_party_id: Option<String>,
    ) -> (request: Result<Request, Error>)
        ensures
            request == if permissions@ == Set::<Permission>::empty() {
                Err::<Request, Error>(Error::MissingParameter)
            } else {
                Ok::<Request, Error>(
                    Request::GetPinUvAuthTokenUsingUvWithPermissions {
                        version,
                        key_agreement,
                        permissions,
                        relying_party_id,
                    },
                )
            },
    {
        if permissions.is_empty() {
            Err(Error::MissingParameter)
        } else {
            Ok(
                Request::GetPinUvAuthTokenUsingUvWithPermissions {
                    version,
                    key_agreement,
                    permissions,
                    relying_party_id,
                },
            )
        }
    }

    /// The request for a token in exchange for the PIN. An empty permission
    /// set is refused as a missing parameter.
    pub fn get_pin_uv_auth_token_using_pin_with_permissions(
        version: Version,
        key_agreement: cosey::PublicKey,
        pin_hash_encrypted: [u8; 16],
        permissions: PermissionSet,
        relying_party_id: Option<String>,
    ) -> (request: Result<Request, Error>)
        ensures
            request == if permissions@ == Set::<Permission>::empty() {
                Err::<Request, Error>(Error::MissingParameter)
            } else {
                Ok::<Request, Error>(
                    Request::GetPinUvAuthTokenUsingPinWithPermissions {
                        version,
                        key_agreement,
                        pin_hash_encrypted,
                        permissions,
                        relying_party_id,
                    },
                )
            },
    {
        if permissions.is_empty() {
            Err(Error::MissingParameter)
        } else {
            Ok(
                Request::GetPinUvAuthTokenUsingPinWithPermissions {
                    version,
                    key_agreement,
                    pin_hash_encrypted,
                    permissions,
                    relying_party_id,
                },
            )
        }
    }
}

/// What an authenticator answers to a client-PIN request.
#[derive(Debug)]
pub enum Response {
    GetPinRetries { pin_retries: usize, power_cycle_state: Option<usize> },
    GetKeyAgreement { key_agreement: cosey::PublicKey },
    SetPin,
    ChangePin,
    GetPinToken { pin_uv_auth_token: PinUvAuthToken },
    GetPinUvAuthTokenUsingUvWithPermissions {
        /// > The pinUvAuthToken, encrypted by calling encrypt with the shared
        /// > secret as the key.
        pin_uv_auth_token: PinUvAuthToken,
    },
    GetUvRetries {
        /// > Number of uv attempts remaining before lockout.
        ///
        /// > The `uv_retries` counter represents the number of user
        /// > verification attempts left before built-in user verification is
        /// > disabled.
        uv_retries: UvRetries,
    },
    GetPinUvAuthTokenUsingPinWithPermissions {
        /// > The pinUvAuthToken, encrypted by calling encrypt with the shared
        /// > secret as the key.
        pin_uv_auth_token: PinUvAuthToken,
    },
}

impl Clone for Response {
    fn clone(&self) -> (copy: Self)
        ensures
            copy@ == self@,
    {
        match self {
            Response::GetPinRetries { pin_retries, power_cycle_state } => Response::GetPinRetries {
                pin_retries: *pin_retries,
                power_cycle_state: *power_cycle_state,
            },
            Response::GetKeyAgreement { key_agreement } => Response::GetKeyAgreement {
                key_agreement: key_agreement.clone(),
            },
            Response::SetPin => Response::SetPin,
            Response::ChangePin => Response::ChangePin,
            Response::GetPinToken { pin_uv_auth_token } => Response::GetPinToken {
                pin_uv_auth_token: *pin_uv_auth_token,
            },
            Response::GetPinUvAuthTokenUsingUvWithPermissions { pin_uv_auth_token } => {
                Response::GetPinUvAuthTokenUsingUvWithPermissions {
                    pin_uv_auth_token: *pin_uv_auth_token,
                }
            },
            Response::GetUvRetries { uv_retries } => Response::GetUvRetries {
                uv_retries: *uv_retries,
            },
            Response::GetPinUvAuthTokenUsingPinWithPermissions { pin_uv_auth_token } => {
                Response::GetPinUvAuthTokenUsingPinWithPermissions {
                    pin_uv_auth_token: *pin_uv_auth_token,
                }
            },
        }
    }
}

} // verus!
