//! The permissions that a token can carry, and ordered sets of them.

use vstd::prelude::*;

verus! {

/// > When obtaining a `pinUvAuthToken`, the platform requests permissions
/// > appropriate for the operations it intends to perform. Consequently, the
/// > `pinUvAuthToken` can only be used for those operations.
#[derive(Debug, Clone, Copy, PartialEq, Eq, PartialOrd, Ord, Structural)]
pub enum Permission {
    /// > This allows the `pinUvAuthToken` to be used for
    /// > `authenticatorMakeCredential` operations with the provided `rpId`
    /// > parameter.
    MakeCredential,
    /// > This allows the `pinUvAuthToken` to be used for
    /// > `authenticatorGetAssertion` operations with the provided `rpId`
    /// > parameter.
    GetAssertion,
    /// > This allows the `pinUvAuthToken` to be used with the
    /// > `authenticatorCredentialManagement` command. The `rpId` parameter is
    /// > optional, if it is present, the `pinUvAuthToken` can only be used for
    /// > Credential Management operations on Credentials associated with that
    /// > RP ID.
    CredentialManagement,
    /// > This allows the `pinUvAuthToken` to be used with the
    /// > `authenticatorBioEnrollment` command.
    BiometricEnrollment,
    /// > This allows the `pinUvAuthToken` to be used with the
    /// > `authenticatorLargeBlobs` command.
    LargeBlobWrite,
    /// > This allows the `pinUvAuthToken` to be used with the
    /// > `authenticatorConfig` command.
    AuthenticatorConfiguration,
}

impl Permission {
    /// The place of the permission in the order of its declaration,
    /// counted from zero. Sets keep their members in this order.
    pub open spec fn spec_rank(self) -> u8 {
        match self {
            Permission::MakeCredential => 0,
            Permission::GetAssertion => 1,
            Permission::CredentialManagement => 2,
            Permission::BiometricEnrollment => 3,
            Permission::LargeBlobWrite => 4,
            Permission::AuthenticatorConfiguration => 5,
        }
    }

    /// The bit that stands for the permission where a set of permissions
    /// travels as a number.
    pub open spec fn spec_bit(self) -> u8 {
        match self {
            Permission::MakeCredential => 0x01,
            Permission::GetAssertion => 0x02,
            Permission::CredentialManagement => 0x04,
            Permission::BiometricEnrollment => 0x08,
            Permission::LargeBlobWrite => 0x10,
            Permission::AuthenticatorConfiguration => 0x20,
        }
    }

    /// The bit that stands for the permission where a set of permissions
    /// travels as a number.
    #[verifier::when_used_as_spec(spec_bit)]
    pub fn bit(self) -> (bit: u8)
        ensures
            bit == self.spec_bit(),
    {
        match self {
            Permission::MakeCredential => 0x01,
            Permission::GetAssertion => 0x02,
            Permission::CredentialManagement => 0x04,
            Permission::BiometricEnrollment => 0x08,
            Permission::LargeBlobWrite => 0x10,
            Permission::AuthenticatorConfiguration => 0x20,
        }
    }

    /// The place of the permission in the order of its declaration,
    /// counted from zero.
    #[verifier::when_used_as_spec(spec_rank)]
    pub fn rank(self) -> (rank: u8)
        ensures
            rank == self.spec_rank(),
            rank < 6,
    {
        match self {
            Permission::MakeCredential => 0,
            Permission::GetAssertion => 1,
            Permission::CredentialManagement => 2,
            Permission::BiometricEnrollment => 3,
            Permission::LargeBlobWrite => 4,
            Permission::AuthenticatorConfiguration => 5,
        }
    }
}

/// Whether a sequence of permissions goes strictly upwards in rank.
pub open spec fn strictly_ordered(members: Seq<Permission>) -> bool {
    forall|i: int, j: int|
        0 <= i < j < members.len() ==> (#[trigger] members[i]).spec_rank() < (
        #[trigger] members[j]).spec_rank()
}

/// A sequence that goes strictly upwards holds no permission twice, so it
/// has as many members as the set it stands for, and at most six.
pub proof fn lemma_strictly_ordered_distinct(members: Seq<Permission>)
    requires
        strictly_ordered(members),
    ensures
        members.no_duplicates(),
        members.to_set().len() == members.len(),
        members.len() <= 6,
{
    assert(members.no_duplicates()) by {
        assert forall|i: int, j: int|
            0 <= i < members.len() && 0 <= j < members.len() && i != j implies members[i]
            != members[j] by {
            if i < j {
                assert(members[i].spec_rank() < members[j].spec_rank());
            } else {
                assert(members[j].spec_rank() < members[i].spec_rank());
            }
        }
    }
    members.unique_seq_to_set();
    if members.len() > 6 {
        assert(members[0].spec_rank() < members[1].spec_rank());
        assert(members[1].spec_rank() < members[2].spec_rank());
        assert(members[2].spec_rank() < members[3].spec_rank());
        assert(members[3].spec_rank() < members[4].spec_rank());
        assert(members[4].spec_rank() < members[5].spec_rank());
        assert(members[5].spec_rank() < members[6].spec_rank());
    }
}

/// What a permission adds to the number that stands for a set: its bit
/// where the set holds it, and nothing where it does not.
pub open spec fn bit_in(set: Set<Permission>, permission: Permission) -> nat {
    if set.contains(permission) {
        permission.spec_bit() as nat
    } else {
        0
    }
}

/// The number that stands for a set of permissions: the sum of the bits of
/// its members.
pub open spec fn spec_bits(set: Set<Permission>) -> nat {
    bit_in(set, Permission::MakeCredential) + bit_in(set, Permission::GetAssertion) + bit_in(
        set,
        Permission::CredentialManagement,
    ) + bit_in(set, Permission::BiometricEnrollment) + bit_in(set, Permission::LargeBlobWrite)
        + bit_in(set, Permission::AuthenticatorConfiguration)
}

/// Whether the bit of a permission is set in a number.
pub open spec fn bit_set(bits: u8, permission: Permission) -> bool {
    (bits as nat / permission.spec_bit() as nat) % 2 == 1
}

/// The set of permissions that a number stands for.
pub open spec fn spec_from_bits(bits: u8) -> Set<Permission> {
    Set::new(|permission: Permission| bit_set(bits, permission))
}

/// The number made of six bits has each of them where it was put.
proof fn lemma_six_bits(c0: bool, c1: bool, c2: bool, c3: bool, c4: bool, c5: bool) -> (n: int)
    ensures
        n == (if c0 { 1int } else { 0 }) + (if c1 { 2int } else { 0 }) + (if c2 { 4int } else { 0 })
            + (if c3 { 8int } else { 0 }) + (if c4 { 16int } else { 0 }) + (if c5 { 32int } else { 0 }),
        0 <= n < 64,
        (n / 1) % 2 == 1 <==> c0,
        (n / 2) % 2 == 1 <==> c1,
        (n / 4) % 2 == 1 <==> c2,
        (n / 8) % 2 == 1 <==> c3,
        (n / 16) % 2 == 1 <==> c4,
        (n / 32) % 2 == 1 <==> c5,
{
    let b0 = if c0 { 1int } else { 0 };
    let b1 = if c1 { 1int } else { 0 };
    let b2 = if c2 { 1int } else { 0 };
    let b3 = if c3 { 1int } else { 0 };
    let b4 = if c4 { 1int } else { 0 };
    let b5 = if c5 { 1int } else { 0 };
    let n = b0 + 2 * b1 + 4 * b2 + 8 * b3 + 16 * b4 + 32 * b5;
    assert(n / 1 == n);
    assert(n == 2 * (b1 + 2 * b2 + 4 * b3 + 8 * b4 + 16 * b5) + b0);
    assert(n / 2 == b1 + 2 * b2 + 4 * b3 + 8 * b4 + 16 * b5);
    assert(n == 4 * (b2 + 2 * b3 + 4 * b4 + 8 * b5) + (b0 + 2 * b1));
    assert(n / 4 == b2 + 2 * b3 + 4 * b4 + 8 * b5);
    assert(n == 8 * (b3 + 2 * b4 + 4 * b5) + (b0 + 2 * b1 + 4 * b2));
    assert(n / 8 == b3 + 2 * b4 + 4 * b5);
    assert(n == 16 * (b4 + 2 * b5) + (b0 + 2 * b1 + 4 * b2 + 8 * b3));
    assert(n / 16 == b4 + 2 * b5);
    assert(n == 32 * b5 + (b0 + 2 * b1 + 4 * b2 + 8 * b3 + 16 * b4));
    assert(n / 32 == b5);
    n
}

/// The number of a set stands for that set, and is below 64.
pub proof fn lemma_from_bits_inverts_bits(set: Set<Permission>)
    ensures
        spec_bits(set) < 64,
        spec_from_bits(spec_bits(set) as u8) == set,
{
    let n = lemma_six_bits(
        set.contains(Permission::MakeCredential),
        set.contains(Permission::GetAssertion),
        set.contains(Permission::CredentialManagement),
        set.contains(Permission::BiometricEnrollment),
        set.contains(Permission::LargeBlobWrite),
        set.contains(Permission::AuthenticatorConfiguration),
    );
    assert(n == spec_bits(set));
    let bits = spec_bits(set) as u8;
    assert(bits as int == n);
    assert forall|permission: Permission|
        bit_set(bits, permission) <==> set.contains(permission) by {
        match permission {
            Permission::MakeCredential => {},
            Permission::GetAssertion => {},
            Permission::CredentialManagement => {},
            Permission::BiometricEnrollment => {},
            Permission::LargeBlobWrite => {},
            Permission::AuthenticatorConfiguration => {},
        }
    }
    assert(spec_from_bits(bits) =~= set);
}

/// A number below 64 is the number of the set that it stands for.
pub proof fn lemma_bits_inverts_from_bits(bits: u8)
    requires
        bits < 64,
    ensures
        spec_bits(spec_from_bits(bits)) == bits,
{
    let set = spec_from_bits(bits);
    let b = bits as int;
    assert(set.contains(Permission::MakeCredential) == bit_set(bits, Permission::MakeCredential));
    assert(set.contains(Permission::GetAssertion) == bit_set(bits, Permission::GetAssertion));
    assert(set.contains(Permission::CredentialManagement) == bit_set(
        bits,
        Permission::CredentialManagement,
    ));
    assert(set.contains(Permission::BiometricEnrollment) == bit_set(
        bits,
        Permission::BiometricEnrollment,
    ));
    assert(set.contains(Permission::LargeBlobWrite) == bit_set(bits, Permission::LargeBlobWrite));
    assert(set.contains(Permission::AuthenticatorConfiguration) == bit_set(
        bits,
        Permission::AuthenticatorConfiguration,
    ));
    assert(b / 1 == b);
    assert(b / 2 == 2 * (b / 4) + (b / 2) % 2);
    assert(b / 4 == 2 * (b / 8) + (b / 4) % 2);
    assert(b / 8 == 2 * (b / 16) + (b / 8) % 2);
    assert(b / 16 == 2 * (b / 32) + (b / 16) % 2);
    assert(b / 32 == (b / 32) % 2);
}

/// A copy of `members` with `permission` put in at index `at`.
fn with_member_at(members: &Vec<Permission>, at: usize, permission: Permission) -> (next: Vec<
    Permission,
>)
    requires
        at <= members@.len(),
    ensures
        next@ == members@.insert(at as int, permission),
{
    let mut next: Vec<Permission> = Vec::new();
    let mut i: usize = 0;
    while i < at
        invariant
            i <= at <= members@.len(),
            next@ == members@.take(i as int),
        decreases at - i,
    {
        next.push(members[i]);
        assert(members@.take(i + 1) =~= members@.take(i as int).push(members@[i as int]));
        i = i + 1;
    }
    next.push(permission);
    while i < members.len()
        invariant
            at <= i <= members@.len(),
            next@ == members@.take(at as int).push(permission) + members@.subrange(
                at as int,
                i as int,
            ),
        decreases members@.len() - i,
    {
        next.push(members[i]);
        assert(members@.subrange(at as int, i + 1) =~= members@.subrange(at as int, i as int).push(
            members@[i as int],
        ));
        i = i + 1;
    }
    assert(next@ =~= members@.insert(at as int, permission));
    next
}

/// An ordered set of permissions.
#[derive(Debug)]
pub struct PermissionSet {
    members: Vec<Permission>,
}

impl View for PermissionSet {
    type V = Set<Permission>;

    closed spec fn view(&self) -> Set<Permission> {
        self.members@.to_set()
    }
}

impl PermissionSet {
    /// The members go strictly upwards in rank.
    #[verifier::type_invariant]
    pub closed spec fn well_formed(&self) -> bool {
        strictly_ordered(self.members@)
    }

    /// The members in their order.
    pub closed spec fn ordered(&self) -> Seq<Permission> {
        self.members@
    }

    /// What ties the set to its members in order.
    pub proof fn lemma_ordered(&self)
        requires
            self.well_formed(),
        ensures
            strictly_ordered(self.ordered()),
            self.ordered().to_set() == self@,
            self@.finite(),
            self@.len() == self.ordered().len(),
            self@.len() <= 6,
    {
        lemma_strictly_ordered_distinct(self.members@);
        vstd::seq_lib::seq_to_set_is_finite(self.members@);
    }

    /// The empty set.
    pub fn new() -> (set: Self)
        ensures
            set@ == Set::<Permission>::empty(),
            set.well_formed(),
    {
        let set = PermissionSet { members: Vec::new() };
        assert(set.members@.to_set() =~= Set::<Permission>::empty());
        set
    }

    /// Whether the set holds a permission.
    pub fn contains(&self, permission: Permission) -> (found: bool)
        ensures
            found == self@.contains(permission),
    {
        let mut i: usize = 0;
        while i < self.members.len()
            invariant
                i <= self.members.len(),
                forall|k: int| 0 <= k < i ==> self.members@[k] != permission,
            decreases self.members.len() - i,
        {
            if self.members[i] == permission {
                assert(self.members@.contains(permission));
                return true;
            }
            i = i + 1;
        }
        assert(!self.members@.contains(permission));
        false
    }

    /// The number of members.
    pub fn len(&self) -> (count: usize)
        ensures
            count == self@.len(),
            count <= 6,
    {
        proof {
            use_type_invariant(self);
            lemma_strictly_ordered_distinct(self.members@);
        }
        self.members.len()
    }

    /// Whether the set has no member.
    pub fn is_empty(&self) -> (empty: bool)
        ensures
            empty == (self@ == Set::<Permission>::empty()),
            empty == (self@.len() == 0),
    {
        proof {
            use_type_invariant(self);
            lemma_strictly_ordered_distinct(self.members@);
            if self.members@.len() == 0 {
                assert(self.members@.to_set() =~= Set::<Permission>::empty());
            } else {
                assert(self.members@.contains(self.members@[0]));
            }
        }
        self.members.len() == 0
    }

    /// Puts a permission into the set. Returns whether it was new to it.
    pub fn insert(&mut self, permission: Permission) -> (added: bool)
        ensures
            final(self)@ == old(self)@.insert(permission),
            added == !old(self)@.contains(permission),
            final(self).well_formed(),
    {
        proof {
            use_type_invariant(&*self);
        }
        let rank = permission.rank();
        let mut at: usize = 0;
        while at < self.members.len() && self.members[at].rank() < rank
            invariant
                at <= self.members.len(),
                rank == permission.spec_rank(),
                forall|k: int| 0 <= k < at ==> self.members@[k].spec_rank() < rank,
            decreases self.members.len() - at,
        {
            at = at + 1;
        }
        if at < self.members.len() && self.members[at].rank() == rank {
            assert(self.members@[at as int] == permission);
            assert(self.members@.contains(permission));
            assert(self.members@.to_set().insert(permission) =~= self.members@.to_set());
            return false;
        }
        let ghost before = self.members@;
        assert(!before.contains(permission)) by {
            assert forall|k: int| 0 <= k < before.len() implies before[k] != permission by {
                if k < at {
                } else {
                    if k > at {
                        assert(before[at as int].spec_rank() < before[k].spec_rank());
                    }
                }
            }
        }
        let next = with_member_at(&self.members, at, permission);
        self.members = next;
        proof {
            let after = self.members@;
            assert(after == before.insert(at as int, permission));
            assert(strictly_ordered(after)) by {
                assert forall|i: int, j: int| 0 <= i < j < after.len() implies (
                #[trigger] after[i]).spec_rank() < (#[trigger] after[j]).spec_rank() by {
                    if j < at {
                        assert(after[i] == before[i] && after[j] == before[j]);
                    } else if j == at {
                        assert(after[i] == before[i]);
                    } else if i < at {
                        assert(after[i] == before[i] && after[j] == before[j - 1]);
                        if at < j - 1 {
                            assert(before[i].spec_rank() < before[j - 1].spec_rank());
                        }
                    } else if i == at {
                        assert(after[j] == before[j - 1]);
                        if at < j - 1 {
                            assert(before[at as int].spec_rank() < before[j - 1].spec_rank());
                        }
                    } else {
                        assert(after[i] == before[i - 1] && after[j] == before[j - 1]);
                    }
                }
            }
            assert(after.to_set() =~= before.to_set().insert(permission)) by {
                assert forall|p: Permission| after.to_set().contains(p) <==> before.to_set().insert(
                    permission,
                ).contains(p) by {
                    if after.contains(p) {
                        let k = choose|k: int| 0 <= k < after.len() && after[k] == p;
                        if k < at {
                            assert(before[k] == p);
                        } else if k > at {
                            assert(before[k - 1] == p);
                        }
                    }
                    if before.contains(p) {
                        let k = choose|k: int| 0 <= k < before.len() && before[k] == p;
                        if k < at {
                            assert(after[k] == p);
                        } else {
                            assert(after[k + 1] == p);
                        }
                    }
                    if p == permission {
                        assert(after[at as int] == p);
                    }
                }
            }
        }
        true
    }

    /// The set of the permissions that a slice holds, each taken once.
    pub fn from_slice(permissions: &[Permission]) -> (set: Self)
        ensures
            set@ == permissions@.to_set(),
            set.well_formed(),
    {
        let mut set = PermissionSet::new();
        let mut i: usize = 0;
        while i < permissions.len()
            invariant
                i <= permissions.len(),
                set@ == permissions@.take(i as int).to_set(),
                set.well_formed(),
            decreases permissions.len() - i,
        {
            set.insert(permissions[i]);
            proof {
                let head = permissions@.take(i as int);
                let next = permissions@.take(i + 1);
                assert(next =~= head.push(permissions@[i as int]));
                assert(next.to_set() =~= head.to_set().insert(permissions@[i as int])) by {
                    assert forall|p: Permission| next.to_set().contains(p) <==> head.to_set().insert(
                        permissions@[i as int],
                    ).contains(p) by {
                        if next.contains(p) {
                            let k = choose|k: int| 0 <= k < next.len() && next[k] == p;
                            if k < head.len() {
                                assert(head[k] == p);
                            }
                        }
                        if head.contains(p) {
                            let k = choose|k: int| 0 <= k < head.len() && head[k] == p;
                            assert(next[k] == p);
                        }
                        if p == permissions@[i as int] {
                            assert(next[i as int] == p);
                        }
                    }
                }
            }
            i = i + 1;
        }
        assert(permissions@.take(permissions@.len() as int) =~= permissions@);
        set
    }

    /// The number that stands for the set where it travels.
    pub fn to_bits(&self) -> (bits: u8)
        ensures
            bits == spec_bits(self@),
            bits < 64,
    {
        let mut bits: u8 = 0;
        if self.contains(Permission::MakeCredential) {
            bits = bits + Permission::MakeCredential.bit();
        }
        if self.contains(Permission::GetAssertion) {
            bits = bits + Permission::GetAssertion.bit();
        }
        if self.contains(Permission::CredentialManagement) {
            bits = bits + Permission::CredentialManagement.bit();
        }
        if self.contains(Permission::BiometricEnrollment) {
            bits = bits + Permission::BiometricEnrollment.bit();
        }
        if self.contains(Permission::LargeBlobWrite) {
            bits = bits + Permission::LargeBlobWrite.bit();
        }
        if self.contains(Permission::AuthenticatorConfiguration) {
            bits = bits + Permission::AuthenticatorConfiguration.bit();
        }
        bits
    }

    /// The set that a number stands for. There is none where the number
    /// has a bit that stands for no permission.
    pub fn from_bits(bits: u8) -> (set: Option<PermissionSet>)
        ensures
            set is Some <==> bits < 64,
            set matches Some(s) ==> s@ == spec_from_bits(bits) && s.well_formed(),
    {
        if bits >= 64 {
            return None;
        }
        let mut set = PermissionSet::new();
        let has_0 = bits % 2 == 1;
        let has_1 = (bits / 2) % 2 == 1;
        let has_2 = (bits / 4) % 2 == 1;
        let has_3 = (bits / 8) % 2 == 1;
        let has_4 = (bits / 16) % 2 == 1;
        let has_5 = (bits / 32) % 2 == 1;
        assert(has_0 == bit_set(bits, Permission::MakeCredential)) by {
            assert(bits as nat / 1 == bits as nat);
        }
        assert(has_1 == bit_set(bits, Permission::GetAssertion));
        assert(has_2 == bit_set(bits, Permission::CredentialManagement));
        assert(has_3 == bit_set(bits, Permission::BiometricEnrollment));
        assert(has_4 == bit_set(bits, Permission::LargeBlobWrite));
        assert(has_5 == bit_set(bits, Permission::AuthenticatorConfiguration));
        if has_0 {
            set.insert(Permission::MakeCredential);
        }
        if has_1 {
            set.insert(Permission::GetAssertion);
        }
        if has_2 {
            set.insert(Permission::CredentialManagement);
        }
        if has_3 {
            set.insert(Permission::BiometricEnrollment);
        }
        if has_4 {
            set.insert(Permission::LargeBlobWrite);
        }
        if has_5 {
            set.insert(Permission::AuthenticatorConfiguration);
        }
        proof {
            assert(set@.contains(Permission::MakeCredential) == has_0);
            assert(set@.contains(Permission::GetAssertion) == has_1);
            assert(set@.contains(Permission::CredentialManagement) == has_2);
            assert(set@.contains(Permission::BiometricEnrollment) == has_3);
            assert(set@.contains(Permission::LargeBlobWrite) == has_4);
            assert(set@.contains(Permission::AuthenticatorConfiguration) == has_5);
            assert forall|permission: Permission|
                set@.contains(permission) <==> bit_set(bits, permission) by {
                match permission {
                    Permission::MakeCredential => {},
                    Permission::GetAssertion => {},
                    Permission::CredentialManagement => {},
                    Permission::BiometricEnrollment => {},
                    Permission::LargeBlobWrite => {},
                    Permission::AuthenticatorConfiguration => {},
                }
            }
            assert(set@ =~= spec_from_bits(bits));
        }
        Some(set)
    }

    /// The members, each once, in the order of their ranks.
    pub fn as_slice(&self) -> (members: &[Permission])
        ensures
            members@ == self.ordered(),
            strictly_ordered(members@),
            members@.to_set() == self@,
    {
        proof {
            use_type_invariant(self);
        }
        self.members.as_slice()
    }
}

impl Clone for PermissionSet {
    fn clone(&self) -> (copy: Self)
        ensures
            copy@ == self@,
            copy.ordered() == self.ordered(),
    {
        proof {
            use_type_invariant(self);
        }
        let mut members: Vec<Permission> = Vec::new();
        let mut i: usize = 0;
        while i < self.members.len()
            invariant
                i <= self.members.len(),
                members@ == self.members@.take(i as int),
            decreases self.members.len() - i,
        {
            members.push(self.members[i]);
            assert(self.members@.take(i + 1) =~= self.members@.take(i as int).push(
                self.members@[i as int],
            ));
            i = i + 1;
        }
        assert(self.members@.take(self.members@.len() as int) =~= self.members@);
        PermissionSet { members }
    }
}

} // verus!
