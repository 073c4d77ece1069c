use ctap2_proto::authenticator::client_pin::auth_protocol::Version;
use ctap2_proto::authenticator::client_pin::{Error, PinUvAuthToken, UvRetries};

#[test]
fn a_token_has_sixteen_or_thirty_two_bytes() {
    let short: Vec<u8> = (0u8..16).collect();
    let long: Vec<u8> = (0u8..32).collect();
    let token = PinUvAuthToken::try_from(short.as_slice()).unwrap();
    assert!(matches!(token, PinUvAuthToken::Short(_)));
    assert_eq!(token.as_ref(), short.as_slice());
    assert_eq!(token.version(), Version::One);
    let token = PinUvAuthToken::try_from(long.as_slice()).unwrap();
    assert!(matches!(token, PinUvAuthToken::Long(_)));
    assert_eq!(token.as_ref(), long.as_slice());
    assert_eq!(token.version(), Version::Two);
}

#[test]
fn no_other_length_makes_a_token() {
    for length in [0usize, 1, 15, 17, 31, 33, 48, 64] {
        let bytes = vec![7u8; length];
        assert!(matches!(
            PinUvAuthToken::try_from(bytes.as_slice()),
            Err(Error::InvalidParameter)
        ));
    }
}

#[test]
fn a_token_is_as_long_as_its_version_says() {
    let mut entropy = [0u8; 32];
    for (i, byte) in entropy.iter_mut().enumerate() {
        *byte = 200 - i as u8;
    }
    for version in [Version::One, Version::Two] {
        let token = PinUvAuthToken::from_entropy(version, &entropy);
        assert_eq!(token.version(), version);
        assert_eq!(token.as_ref().len(), version.token_length());
        assert_eq!(token.as_ref(), &entropy[..version.token_length()]);
    }
    assert!(matches!(
        PinUvAuthToken::from_entropy(Version::One, &entropy),
        PinUvAuthToken::Short(_)
    ));
    assert!(matches!(PinUvAuthToken::from_entropy(Version::Two, &entropy), PinUvAuthToken::Long(_)));
}

#[test]
fn as_ref_gives_the_bytes_of_either_size() {
    assert_eq!(PinUvAuthToken::Short([3; 16]).as_ref(), &[3u8; 16]);
    assert_eq!(PinUvAuthToken::Long([4; 32]).as_ref(), &[4u8; 32]);
}

#[test]
fn uv_retries_are_between_1_and_25() {
    assert!(UvRetries::new(0).is_none());
    assert!(UvRetries::new(26).is_none());
    assert!(UvRetries::new(usize::MAX).is_none());
    for n in 1..=25 {
        assert_eq!(UvRetries::new(n).unwrap().get(), n);
    }
    assert_eq!(UvRetries::MIN_VALUE, 1);
    assert_eq!(UvRetries::MAX_VALUE, 25);
}

#[test]
fn errors_are_shown_in_words() {
    let shown = [
        (Error::MissingParameter, "Missing parameter"),
        (Error::InvalidParameter, "Invalid parameter"),
        (Error::PinAuthInvalid, "PIN auth invalid"),
        (Error::PinPolicyViolation, "PIN policy violation"),
        (Error::PinBlocked, "PIN blocked"),
        (Error::PinAuthBlocked, "PIN auth blocked"),
        (Error::PinInvalid, "PIN invalid"),
        (Error::OperationDenied, "Operation denied"),
        (Error::UnauthorizedPermission, "Unauthorized permission"),
        (Error::NotAllowed, "Not allowed"),
        (Error::UserVerificationBlocked, "User verification blocked"),
        (Error::UserActionTimeout, "User action timeout"),
        (Error::UserVerificationInvalid, "User verification invalid"),
    ];
    for (error, words) in shown {
        assert_eq!(error.to_string(), words);
        assert_eq!(error.message(), words);
    }
}
