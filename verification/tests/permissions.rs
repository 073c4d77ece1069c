use ctap2_proto::authenticator::client_pin::permissions::PermissionSet;
use ctap2_proto::authenticator::client_pin::Permission;

const ALL: [Permission; 6] = [
    Permission::MakeCredential,
    Permission::GetAssertion,
    Permission::CredentialManagement,
    Permission::BiometricEnrollment,
    Permission::LargeBlobWrite,
    Permission::AuthenticatorConfiguration,
];

#[test]
fn a_new_set_is_empty() {
    let set = PermissionSet::new();
    assert!(set.is_empty());
    assert_eq!(set.len(), 0);
    assert_eq!(set.as_slice(), &[]);
    for permission in ALL {
        assert!(!set.contains(permission));
    }
}

#[test]
fn insert_keeps_each_member_once_and_in_order() {
    let mut set = PermissionSet::new();
    assert!(set.insert(Permission::LargeBlobWrite));
    assert!(set.insert(Permission::MakeCredential));
    assert!(set.insert(Permission::BiometricEnrollment));
    assert!(!set.insert(Permission::MakeCredential));
    assert!(!set.insert(Permission::LargeBlobWrite));
    assert_eq!(set.len(), 3);
    assert!(!set.is_empty());
    assert_eq!(
        set.as_slice(),
        &[
            Permission::MakeCredential,
            Permission::BiometricEnrollment,
            Permission::LargeBlobWrite
        ]
    );
    assert!(set.contains(Permission::BiometricEnrollment));
    assert!(!set.contains(Permission::GetAssertion));
    assert!(set.insert(Permission::AuthenticatorConfiguration));
    assert!(set.insert(Permission::GetAssertion));
    assert!(set.insert(Permission::CredentialManagement));
    assert_eq!(set.as_slice(), &ALL);
    assert_eq!(set.len(), 6);
}

#[test]
fn from_slice_sorts_and_drops_repeats() {
    let set = PermissionSet::from_slice(&[
        Permission::GetAssertion,
        Permission::AuthenticatorConfiguration,
        Permission::GetAssertion,
        Permission::MakeCredential,
    ]);
    assert_eq!(
        set.as_slice(),
        &[
            Permission::MakeCredential,
            Permission::GetAssertion,
            Permission::AuthenticatorConfiguration
        ]
    );
    assert!(PermissionSet::from_slice(&[]).is_empty());
}

#[test]
fn the_order_of_a_set_is_the_order_of_the_permissions() {
    let set = PermissionSet::from_slice(&[ALL[5], ALL[3], ALL[1], ALL[4], ALL[0], ALL[2]]);
    let members = set.as_slice();
    for pair in members.windows(2) {
        assert!(pair[0] < pair[1]);
    }
    for (rank, permission) in ALL.iter().enumerate() {
        assert_eq!(permission.rank() as usize, rank);
    }
}

#[test]
fn each_permission_has_its_bit() {
    assert_eq!(Permission::MakeCredential.bit(), 0x01);
    assert_eq!(Permission::GetAssertion.bit(), 0x02);
    assert_eq!(Permission::CredentialManagement.bit(), 0x04);
    assert_eq!(Permission::BiometricEnrollment.bit(), 0x08);
    assert_eq!(Permission::LargeBlobWrite.bit(), 0x10);
    assert_eq!(Permission::AuthenticatorConfiguration.bit(), 0x20);
}

#[test]
fn a_set_travels_as_the_sum_of_its_bits() {
    assert_eq!(PermissionSet::new().to_bits(), 0);
    assert_eq!(
        PermissionSet::from_slice(&[Permission::GetAssertion, Permission::CredentialManagement])
            .to_bits(),
        0x06
    );
    assert_eq!(PermissionSet::from_slice(&ALL).to_bits(), 0x3f);
    let set = PermissionSet::from_bits(0x21).unwrap();
    assert_eq!(
        set.as_slice(),
        &[Permission::MakeCredential, Permission::AuthenticatorConfiguration]
    );
    assert!(PermissionSet::from_bits(0).unwrap().is_empty());
}

#[test]
fn bits_and_sets_are_inverse_below_64() {
    for bits in 0u8..64 {
        let set = PermissionSet::from_bits(bits).unwrap();
        assert_eq!(set.to_bits(), bits);
        assert_eq!(set.len() as u32, bits.count_ones());
        for permission in ALL {
            assert_eq!(set.contains(permission), bits & permission.bit() != 0);
        }
    }
    for bits in 64u8..=255 {
        assert!(PermissionSet::from_bits(bits).is_none());
    }
}

#[test]
fn a_copy_of_a_set_has_the_same_members() {
    let set = PermissionSet::from_slice(&[Permission::LargeBlobWrite, Permission::GetAssertion]);
    let copy = set.clone();
    assert_eq!(copy.as_slice(), set.as_slice());
    assert_eq!(copy.len(), 2);
}
