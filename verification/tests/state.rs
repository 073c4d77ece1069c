use ctap2_proto::authenticator::client_pin::auth_protocol::authenticator::Authenticator;
use ctap2_proto::authenticator::client_pin::auth_protocol::Version;
use ctap2_proto::authenticator::client_pin::permissions::PermissionSet;
use ctap2_proto::authenticator::client_pin::state::{
    get_key_agreement, key_agreement_response, pin_length, Policy, State, UserVerification,
};
use ctap2_proto::authenticator::client_pin::{
    Error, Permission, PinUvAuthToken, Request, Response, UvRetries,
};
use ctap2_proto::{Command, Ctap2_2Authenticator};

const PIN_HASH: [u8; 16] = [0x10; 16];
const OTHER_HASH: [u8; 16] = [0x20; 16];
const ENTROPY: [u8; 32] = [0xe7; 32];

fn policy(max_pin_retries: usize, max_uv_retries: usize) -> Policy {
    Policy {
        min_pin_length: 4,
        max_pin_retries,
        max_uv_retries: UvRetries::new(max_uv_retries).unwrap(),
        power_cycle_after: None,
    }
}

fn padded(pin: &[u8]) -> [u8; 64] {
    let mut block = [0u8; 64];
    block[..pin.len()].copy_from_slice(pin);
    block
}

fn with_pin(max_pin_retries: usize) -> State {
    let mut state = State::new(policy(max_pin_retries, 3));
    assert!(matches!(state.set_pin(true, &padded(b"123456"), &PIN_HASH), Ok(Response::SetPin)));
    state
}

fn token_of(issued: Result<PinUvAuthToken, Error>) -> PinUvAuthToken {
    match issued {
        Ok(token) => token,
        Err(error) => panic!("no token: {}", error.message()),
    }
}

#[test]
fn a_new_state_has_all_its_attempts_and_nothing_else() {
    let state = State::new(policy(8, 5));
    assert_eq!(state.pin_retries(), 8);
    assert_eq!(state.uv_retries().get(), 5);
    assert!(!state.uv_blocked());
    assert!(!state.has_pin());
    assert_eq!(state.power_cycle_state(), None);
    assert!(state.token().is_none());
    assert!(matches!(
        state.get_pin_retries(),
        Response::GetPinRetries { pin_retries: 8, power_cycle_state: None }
    ));
}

#[test]
fn the_length_of_a_pin_leaves_out_the_padding() {
    assert_eq!(pin_length(&[0u8; 64]), 0);
    assert_eq!(pin_length(&padded(b"1234")), 4);
    assert_eq!(pin_length(&padded(b"12\x0034")), 5);
    assert_eq!(pin_length(&[1u8; 64]), 64);
    let mut block = [0u8; 64];
    block[63] = 1;
    assert_eq!(pin_length(&block), 64);
}

#[test]
fn retry_lockout_after_the_last_attempt() {
    let mut state = with_pin(1);
    assert_eq!(state.pin_retries(), 1);
    assert!(matches!(
        state.get_pin_token(Version::One, &OTHER_HASH, &ENTROPY),
        Err(Error::PinInvalid)
    ));
    assert_eq!(state.pin_retries(), 0);
    assert!(matches!(
        state.get_pin_token(Version::One, &PIN_HASH, &ENTROPY),
        Err(Error::PinBlocked)
    ));
    assert!(matches!(
        state.get_pin_token(Version::One, &OTHER_HASH, &ENTROPY),
        Err(Error::PinBlocked)
    ));
    assert_eq!(state.verify_pin(&PIN_HASH), Err(Error::PinBlocked));
    assert_eq!(state.pin_retries(), 0);
    assert!(state.token().is_none());
    assert!(matches!(
        state.get_pin_retries(),
        Response::GetPinRetries { pin_retries: 0, power_cycle_state: None }
    ));
}

#[test]
fn the_right_pin_restores_the_attempts() {
    let mut state = with_pin(3);
    assert_eq!(state.verify_pin(&OTHER_HASH), Err(Error::PinInvalid));
    assert_eq!(state.verify_pin(&OTHER_HASH), Err(Error::PinInvalid));
    assert_eq!(state.pin_retries(), 1);
    assert_eq!(state.verify_pin(&PIN_HASH), Ok(()));
    assert_eq!(state.pin_retries(), 3);
}

#[test]
fn without_a_pin_no_pin_is_tried() {
    let mut state = State::new(policy(8, 3));
    assert_eq!(state.verify_pin(&PIN_HASH), Err(Error::OperationDenied));
    assert_eq!(state.pin_retries(), 8);
    assert!(matches!(
        state.get_pin_token(Version::Two, &PIN_HASH, &ENTROPY),
        Err(Error::OperationDenied)
    ));
}

#[test]
fn uv_retries_are_reported_within_their_range() {
    let state = State::new(policy(8, 25));
    match state.get_uv_retries() {
        Response::GetUvRetries { uv_retries } => assert_eq!(uv_retries.get(), 25),
        other => panic!("unexpected {:?}", other),
    }
    let state = State::new(policy(8, 1));
    match state.get_uv_retries() {
        Response::GetUvRetries { uv_retries } => assert_eq!(uv_retries.get(), 1),
        other => panic!("unexpected {:?}", other),
    }
}

#[test]
fn uv_failures_count_down_to_the_floor_and_lock() {
    let mut state = State::new(policy(8, 3));
    let permissions = || PermissionSet::from_slice(&[Permission::GetAssertion]);
    for left in [2usize, 1, 1] {
        assert!(!state.uv_blocked());
        assert!(matches!(
            state.get_pin_uv_auth_token_using_uv_with_permissions(
                Version::Two,
                UserVerification::Rejected,
                &ENTROPY,
                permissions(),
                None,
            ),
            Err(Error::UserVerificationInvalid)
        ));
        assert_eq!(state.uv_retries().get(), left);
    }
    assert!(state.uv_blocked());
    for outcome in
        [UserVerification::Verified, UserVerification::Rejected, UserVerification::TimedOut]
    {
        assert!(matches!(
            state.get_pin_uv_auth_token_using_uv_with_permissions(
                Version::Two,
                outcome,
                &ENTROPY,
                permissions(),
                None,
            ),
            Err(Error::UserVerificationBlocked)
        ));
        assert_eq!(state.verify_user(outcome), Err(Error::UserVerificationBlocked));
    }
    assert!(state.token().is_none());
    match state.get_uv_retries() {
        Response::GetUvRetries { uv_retries } => assert_eq!(uv_retries.get(), 1),
        other => panic!("unexpected {:?}", other),
    }
}

#[test]
fn a_successful_uv_restores_the_attempts_and_a_timeout_costs_none() {
    let mut state = State::new(policy(8, 4));
    assert_eq!(state.verify_user(UserVerification::Rejected), Err(Error::UserVerificationInvalid));
    assert_eq!(state.uv_retries().get(), 3);
    assert_eq!(state.verify_user(UserVerification::TimedOut), Err(Error::UserActionTimeout));
    assert_eq!(state.uv_retries().get(), 3);
    assert_eq!(state.verify_user(UserVerification::Verified), Ok(()));
    assert_eq!(state.uv_retries().get(), 4);
}

#[test]
fn a_token_is_good_for_its_permissions_and_its_relying_party_only() {
    let mut state = with_pin(8);
    let token = token_of(state.get_pin_uv_auth_token_using_pin_with_permissions(
        Version::Two,
        &PIN_HASH,
        &ENTROPY,
        PermissionSet::from_slice(&[Permission::GetAssertion]),
        Some("example.com".to_string()),
    ));
    assert_eq!(token.as_ref(), &ENTROPY[..]);
    assert_eq!(state.authorize(Permission::GetAssertion, Some("example.com")), Ok(()));
    assert_eq!(
        state.authorize(Permission::GetAssertion, Some("other.com")),
        Err(Error::NotAllowed)
    );
    assert_eq!(
        state.authorize(Permission::MakeCredential, Some("example.com")),
        Err(Error::UnauthorizedPermission)
    );
    assert_eq!(
        state.authorize(Permission::MakeCredential, Some("other.com")),
        Err(Error::UnauthorizedPermission)
    );
    assert_eq!(state.authorize(Permission::GetAssertion, None), Ok(()));
}

#[test]
fn a_token_without_a_relying_party_is_good_for_any() {
    let mut state = State::new(policy(8, 3));
    let token = token_of(state.get_pin_uv_auth_token_using_uv_with_permissions(
        Version::One,
        UserVerification::Verified,
        &ENTROPY,
        PermissionSet::from_slice(&[Permission::CredentialManagement, Permission::LargeBlobWrite]),
        None,
    ));
    assert_eq!(token.as_ref(), &ENTROPY[..16]);
    assert!(matches!(token, PinUvAuthToken::Short(_)));
    assert_eq!(state.authorize(Permission::CredentialManagement, Some("example.com")), Ok(()));
    assert_eq!(state.authorize(Permission::LargeBlobWrite, None), Ok(()));
    assert_eq!(
        state.authorize(Permission::BiometricEnrollment, None),
        Err(Error::UnauthorizedPermission)
    );
}

#[test]
fn without_a_token_nothing_is_authorized() {
    let mut state = State::new(policy(8, 3));
    for permission in [Permission::MakeCredential, Permission::AuthenticatorConfiguration] {
        assert_eq!(state.authorize(permission, None), Err(Error::UnauthorizedPermission));
        assert_eq!(state.clearance(true, permission, None), Err(Error::UnauthorizedPermission));
        assert_eq!(state.clearance(false, permission, None), Err(Error::UnauthorizedPermission));
    }
    assert_eq!(state.pin_retries(), 8);
}

#[test]
fn a_token_for_the_pin_alone_makes_credentials_and_gets_assertions() {
    let mut state = with_pin(8);
    let token = token_of(state.get_pin_token(Version::One, &PIN_HASH, &ENTROPY));
    assert_eq!(token.as_ref().len(), 16);
    assert_eq!(state.token().unwrap().as_ref(), token.as_ref());
    assert_eq!(state.authorize(Permission::MakeCredential, Some("example.com")), Ok(()));
    assert_eq!(state.authorize(Permission::GetAssertion, Some("other.com")), Ok(()));
    assert_eq!(
        state.authorize(Permission::CredentialManagement, None),
        Err(Error::UnauthorizedPermission)
    );
}

#[test]
fn issued_tokens_match_the_version_asked_for() {
    for version in [Version::One, Version::Two] {
        let mut state = with_pin(8);
        let token = token_of(state.get_pin_token(version, &PIN_HASH, &ENTROPY));
        assert_eq!(token.version(), version);
        assert_eq!(token.as_ref().len(), version.token_length());
        let token = token_of(state.get_pin_uv_auth_token_using_uv_with_permissions(
            version,
            UserVerification::Verified,
            &ENTROPY,
            PermissionSet::from_slice(&[Permission::GetAssertion]),
            None,
        ));
        assert_eq!(token.version(), version);
        assert!(token.as_ref().len() == 16 || token.as_ref().len() == 32);
    }
}

#[test]
fn a_token_request_without_permissions_tries_nothing() {
    let mut state = with_pin(2);
    assert!(matches!(
        state.get_pin_uv_auth_token_using_pin_with_permissions(
            Version::Two,
            &OTHER_HASH,
            &ENTROPY,
            PermissionSet::new(),
            None,
        ),
        Err(Error::MissingParameter)
    ));
    assert_eq!(state.pin_retries(), 2);
    assert!(matches!(
        state.get_pin_uv_auth_token_using_uv_with_permissions(
            Version::Two,
            UserVerification::Rejected,
            &ENTROPY,
            PermissionSet::new(),
            None,
        ),
        Err(Error::MissingParameter)
    ));
    assert_eq!(state.uv_retries().get(), 3);
    assert!(state.token().is_none());
}

#[test]
fn set_pin_is_denied_when_a_pin_exists() {
    let mut state = with_pin(8);
    assert!(matches!(
        state.set_pin(true, &padded(b"654321"), &OTHER_HASH),
        Err(Error::OperationDenied)
    ));
    assert_eq!(state.verify_pin(&PIN_HASH), Ok(()));
}

#[test]
fn set_pin_refuses_a_pin_that_is_too_short() {
    let mut state = State::new(policy(8, 3));
    assert!(matches!(
        state.set_pin(true, &padded(b"123"), &PIN_HASH),
        Err(Error::PinPolicyViolation)
    ));
    assert!(!state.has_pin());
    assert!(matches!(state.set_pin(true, &padded(b"1234"), &PIN_HASH), Ok(Response::SetPin)));
    assert!(state.has_pin());
}

#[test]
fn set_pin_checks_the_authentication_parameter_first() {
    let mut state = State::new(policy(8, 3));
    assert!(matches!(
        state.set_pin(false, &padded(b"12"), &PIN_HASH),
        Err(Error::PinAuthInvalid)
    ));
    assert!(!state.has_pin());
    let mut state = with_pin(8);
    assert!(matches!(
        state.set_pin(false, &padded(b"123456"), &PIN_HASH),
        Err(Error::PinAuthInvalid)
    ));
    assert!(matches!(
        state.set_pin(true, &padded(b"12"), &PIN_HASH),
        Err(Error::PinPolicyViolation)
    ));
}

#[test]
fn a_parameter_that_does_not_verify_costs_a_pin_attempt() {
    let mut state = State::new(policy(2, 3));
    assert!(matches!(
        state.set_pin(false, &padded(b"123456"), &PIN_HASH),
        Err(Error::PinAuthInvalid)
    ));
    assert_eq!(state.pin_retries(), 1);
    assert!(matches!(state.set_pin(true, &padded(b"123456"), &PIN_HASH), Ok(Response::SetPin)));
    assert_eq!(state.pin_retries(), 2);
    assert!(matches!(
        state.change_pin(false, &PIN_HASH, &padded(b"abcdef"), &OTHER_HASH),
        Err(Error::PinAuthInvalid)
    ));
    assert_eq!(state.pin_retries(), 1);
    assert!(matches!(
        state.change_pin(false, &PIN_HASH, &padded(b"abcdef"), &OTHER_HASH),
        Err(Error::PinAuthInvalid)
    ));
    assert_eq!(state.pin_retries(), 0);
    assert!(matches!(
        state.change_pin(false, &PIN_HASH, &padded(b"abcdef"), &OTHER_HASH),
        Err(Error::PinAuthInvalid)
    ));
    assert_eq!(state.pin_retries(), 0);
    assert_eq!(state.verify_pin(&PIN_HASH), Err(Error::PinBlocked));
}

#[test]
fn change_pin_replaces_the_pin_and_drops_the_token() {
    let mut state = with_pin(8);
    token_of(state.get_pin_token(Version::Two, &PIN_HASH, &ENTROPY));
    assert!(state.token().is_some());
    assert!(matches!(
        state.change_pin(true, &PIN_HASH, &padded(b"abcdef"), &OTHER_HASH),
        Ok(Response::ChangePin)
    ));
    assert!(state.token().is_none());
    assert_eq!(state.verify_pin(&PIN_HASH), Err(Error::PinInvalid));
    assert_eq!(state.verify_pin(&OTHER_HASH), Ok(()));
}

#[test]
fn change_pin_reports_errors_in_their_order() {
    let mut state = with_pin(3);
    assert!(matches!(
        state.change_pin(false, &OTHER_HASH, &padded(b"1"), &OTHER_HASH),
        Err(Error::PinAuthInvalid)
    ));
    assert_eq!(state.pin_retries(), 2);
    assert!(matches!(
        state.change_pin(true, &OTHER_HASH, &padded(b"1"), &OTHER_HASH),
        Err(Error::PinInvalid)
    ));
    assert_eq!(state.pin_retries(), 1);
    assert!(matches!(
        state.change_pin(true, &PIN_HASH, &padded(b"1"), &OTHER_HASH),
        Err(Error::PinPolicyViolation)
    ));
    assert_eq!(state.pin_retries(), 3);
    for left in [2usize, 1, 0] {
        assert_eq!(state.verify_pin(&OTHER_HASH), Err(Error::PinInvalid));
        assert_eq!(state.pin_retries(), left);
    }
    assert!(matches!(
        state.change_pin(true, &PIN_HASH, &padded(b"1"), &OTHER_HASH),
        Err(Error::PinPolicyViolation)
    ));
    assert!(matches!(
        state.change_pin(true, &PIN_HASH, &padded(b"abcdef"), &OTHER_HASH),
        Err(Error::PinBlocked)
    ));
    assert!(matches!(
        state.change_pin(false, &PIN_HASH, &padded(b"abcdef"), &OTHER_HASH),
        Err(Error::PinAuthInvalid)
    ));
    assert_eq!(state.pin_retries(), 0);
    let mut state = State::new(policy(8, 3));
    assert!(matches!(
        state.change_pin(true, &PIN_HASH, &padded(b"abcdef"), &OTHER_HASH),
        Err(Error::OperationDenied)
    ));
    assert_eq!(state.pin_retries(), 8);
}

#[test]
fn a_power_cycle_is_wanted_after_failures_in_a_row() {
    let mut state = State::new(Policy {
        min_pin_length: 4,
        max_pin_retries: 8,
        max_uv_retries: UvRetries::new(3).unwrap(),
        power_cycle_after: Some(2),
    });
    assert!(matches!(state.set_pin(true, &padded(b"123456"), &PIN_HASH), Ok(Response::SetPin)));
    assert_eq!(state.power_cycle_state(), Some(2));
    assert_eq!(state.verify_pin(&OTHER_HASH), Err(Error::PinInvalid));
    assert_eq!(state.power_cycle_state(), Some(1));
    assert_eq!(state.verify_pin(&OTHER_HASH), Err(Error::PinInvalid));
    assert!(matches!(
        state.get_pin_retries(),
        Response::GetPinRetries { pin_retries: 6, power_cycle_state: Some(0) }
    ));
    assert_eq!(state.verify_pin(&PIN_HASH), Err(Error::PinAuthBlocked));
    assert_eq!(state.pin_retries(), 6);
    state.power_cycle();
    assert_eq!(state.power_cycle_state(), Some(2));
    assert_eq!(state.pin_retries(), 6);
    assert_eq!(state.verify_pin(&PIN_HASH), Ok(()));
    assert_eq!(state.pin_retries(), 8);
}

#[test]
fn the_token_goes_out_of_force_when_told_and_at_power_on() {
    let mut state = with_pin(8);
    token_of(state.get_pin_token(Version::Two, &PIN_HASH, &ENTROPY));
    state.reset_pin_uv_auth_token();
    assert!(state.token().is_none());
    assert!(state.has_pin());
    assert_eq!(state.authorize(Permission::GetAssertion, None), Err(Error::UnauthorizedPermission));
    token_of(state.get_pin_token(Version::Two, &PIN_HASH, &ENTROPY));
    state.power_cycle();
    assert!(state.token().is_none());
    assert!(state.has_pin());
}

#[test]
fn a_factory_reset_forgets_everything() {
    let mut state = with_pin(2);
    assert_eq!(state.verify_pin(&OTHER_HASH), Err(Error::PinInvalid));
    assert_eq!(state.verify_user(UserVerification::Rejected), Err(Error::UserVerificationInvalid));
    state.factory_reset(policy(5, 7));
    assert!(!state.has_pin());
    assert_eq!(state.pin_retries(), 5);
    assert_eq!(state.uv_retries().get(), 7);
    assert!(!state.uv_blocked());
    assert!(state.token().is_none());
}

/// A stand-in for an authenticator's cryptographic core: a parameter
/// verifies when it is the key followed by the message, cut to 16 bytes.
struct EchoCore {
    calls: std::cell::Cell<usize>,
}

impl Authenticator for EchoCore {
    type Error = ();

    const VERSION: Version = Version::Two;

    fn initialize(&mut self) -> Result<(), ()> {
        Ok(())
    }

    fn regenerate(&mut self) -> Result<(), ()> {
        Ok(())
    }

    fn reset_pin_uv_auth_token(&mut self) -> Result<(), ()> {
        Ok(())
    }

    fn get_public_key(&self) -> Result<cosey::PublicKey, ()> {
        Ok(cosey::PublicKey::TotpKey(cosey::TotpPublicKey {}))
    }

    fn decapsulate(&self, _peer_cose_key: cosey::PublicKey) -> Result<Vec<u8>, ()> {
        Ok(vec![0; 32])
    }

    fn decrypt(&self, ciphertext: &[u8]) -> Result<Vec<u8>, ()> {
        Ok(ciphertext.to_vec())
    }

    fn verify(&self, key: &[u8], message: &[u8], signature: &[u8]) -> Result<(), ()> {
        self.calls.set(self.calls.get() + 1);
        let mut expected = key.to_vec();
        expected.extend_from_slice(message);
        expected.truncate(16);
        if signature == expected.as_slice() {
            Ok(())
        } else {
            Err(())
        }
    }
}

#[test]
fn a_command_presents_the_token_before_permissions_count() {
    let core = EchoCore { calls: std::cell::Cell::new(0) };
    assert_eq!(EchoCore::VERSION, Version::Two);
    let mut state = with_pin(8);
    assert_eq!(
        state.authorize_command(&core, b"hash", &[0; 16], Permission::GetAssertion, None),
        Err(Error::UnauthorizedPermission)
    );
    assert_eq!(core.calls.get(), 0);
    assert_eq!(state.pin_retries(), 8);
    token_of(state.get_pin_uv_auth_token_using_pin_with_permissions(
        Version::Two,
        &PIN_HASH,
        &ENTROPY,
        PermissionSet::from_slice(&[Permission::GetAssertion]),
        Some("example.com".to_string()),
    ));
    let good = [0xe7u8; 16];
    let bad = [0u8; 16];
    let here = Some("example.com");
    let there = Some("other.com");
    assert_eq!(
        state.authorize_command(&core, b"hash", &good, Permission::GetAssertion, here),
        Ok(())
    );
    assert_eq!(core.calls.get(), 1);
    assert_eq!(state.pin_retries(), 8);
    assert_eq!(
        state.authorize_command(&core, b"hash", &bad, Permission::GetAssertion, here),
        Err(Error::PinAuthInvalid)
    );
    assert_eq!(state.pin_retries(), 7);
    assert_eq!(
        state.authorize_command(&core, b"hash", &bad, Permission::MakeCredential, there),
        Err(Error::PinAuthInvalid)
    );
    assert_eq!(state.pin_retries(), 6);
    assert_eq!(
        state.authorize_command(&core, b"hash", &good, Permission::MakeCredential, here),
        Err(Error::UnauthorizedPermission)
    );
    assert_eq!(
        state.authorize_command(&core, b"hash", &good, Permission::GetAssertion, there),
        Err(Error::NotAllowed)
    );
    assert_eq!(state.pin_retries(), 6);
    assert_eq!(state.clearance(true, Permission::GetAssertion, here), Ok(()));
    assert_eq!(state.clearance(false, Permission::GetAssertion, here), Err(Error::PinAuthInvalid));
    assert_eq!(state.pin_retries(), 5);
    assert_eq!(core.calls.get(), 5);
}

#[test]
fn the_key_agreement_key_is_that_of_the_core() {
    let core = EchoCore { calls: std::cell::Cell::new(0) };
    match get_key_agreement(&core) {
        Ok(Response::GetKeyAgreement { key_agreement }) => {
            assert_eq!(key_agreement, cosey::PublicKey::TotpKey(cosey::TotpPublicKey {}))
        }
        other => panic!("unexpected {:?}", other),
    }
}

#[test]
fn the_answer_for_the_key_is_made_of_what_the_core_gave() {
    let key = cosey::PublicKey::Ed25519Key(cosey::Ed25519PublicKey { x: [0x44u8; 32].into() });
    match key_agreement_response::<u8>(Ok(key.clone())) {
        Ok(Response::GetKeyAgreement { key_agreement }) => assert_eq!(key_agreement, key),
        other => panic!("unexpected {:?}", other),
    }
    assert!(matches!(key_agreement_response::<u8>(Err(7)), Err(7)));
}

/// An authenticator that answers the two requests for counts from its
/// state and refuses the rest.
struct Counting {
    state: State,
}

impl Ctap2_2Authenticator for Counting {
    fn client_pin(&mut self, request: Request) -> Result<Response, Error> {
        request.validate()?;
        match request {
            Request::GetPinRetries => Ok(self.state.get_pin_retries()),
            Request::GetUvRetries => Ok(self.state.get_uv_retries()),
            _ => Err(Error::NotAllowed),
        }
    }
}

#[test]
fn the_counts_are_served_through_the_command() {
    let mut authenticator = Counting { state: State::new(policy(8, 25)) };
    assert!(matches!(
        authenticator.client_pin(Request::GetPinRetries),
        Ok(Response::GetPinRetries { pin_retries: 8, power_cycle_state: None })
    ));
    match authenticator.client_pin(Request::GetUvRetries) {
        Ok(Response::GetUvRetries { uv_retries }) => {
            assert!(1 <= uv_retries.get() && uv_retries.get() <= 25)
        }
        other => panic!("unexpected {:?}", other),
    }
    assert!(matches!(
        authenticator.client_pin(Request::GetKeyAgreement { version: Version::One }),
        Err(Error::NotAllowed)
    ));
}

#[test]
fn commands_travel_under_their_bytes() {
    let bytes = [
        (Command::AuthenticatorMakeCredential, 0x01u8),
        (Command::AuthenticatorGetAssertion, 0x02),
        (Command::AuthenticatorGetNextAssertion, 0x08),
        (Command::AuthenticatorGetInfo, 0x04),
        (Command::AuthenticatorClientPin, 0x06),
        (Command::AuthenticatorReset, 0x07),
        (Command::AuthenticatorBioEnrollment, 0x09),
        (Command::AuthenticatorCredentialManagement, 0x0A),
        (Command::AuthenticatorSelection, 0x0B),
        (Command::AuthenticatorLargeBlobs, 0x0C),
        (Command::AuthenticatorConfig, 0x0D),
        (Command::PrototypeAuthenticatorBioEnrollment, 0x40),
        (Command::PrototypeAuthenticatorCredentialManagement, 0x41),
    ];
    for (command, byte) in bytes {
        assert_eq!(command.code(), byte);
        assert_eq!(Command::from_code(byte), Some(command));
    }
    for byte in [0x00u8, 0x03, 0x05, 0x0E, 0x3F, 0x42, 0xFF] {
        assert_eq!(Command::from_code(byte), None);
    }
}
