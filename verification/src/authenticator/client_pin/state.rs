//! What an authenticator remembers between client-PIN commands: the PIN,
//! the retry counters and the token in force, with the rules by which each
//! command changes them.
//!
//! The cryptography is done elsewhere. A command handler is handed its
//! outcome (whether the authentication parameter verified, what the
//! ciphertexts decrypted to, fresh random bytes) and decides from that and
//! from the state alone.
//!
//! Where more than one thing is wrong with a command, the error comes in a
//! fixed order: a missing parameter, an invalid parameter, a failed
//! authentication, a PIN that breaks the policy, a lockout, a missing
//! permission, and last what lies in the circumstances (a PIN that is or is
//! not set, a user who did not answer). A PIN or a user verification is
//! only tried while neither a lockout nor the circumstances forbid the try,
//! so a locked authenticator answers with the lockout whatever was offered.
//!
//! Every failed authentication costs an attempt: a wrong PIN and an
//! authentication parameter that does not verify take one from the PIN
//! attempts, a rejected user verification takes one from those of the
//! user.

use crate::authenticator::client_pin::auth_protocol::authenticator::Authenticator;
use crate::authenticator::client_pin::auth_protocol::Version;
use crate::authenticator::client_pin::bytes::same_bytes;
use crate::authenticator::client_pin::permissions::{Permission, PermissionSet};
use crate::authenticator::client_pin::{
    lemma_token_from_entropy, text_view, Error, PinUvAuthToken, Response, UvRetries,
};
use vstd::prelude::*;

verus! {

/// The rules that an authenticator is set up with.
#[derive(Clone, Copy, Debug)]
pub struct Policy {
    /// The fewest bytes that a PIN may have.
    pub min_pin_length: usize,
    /// The number of PIN attempts that a correct PIN restores.
    pub max_pin_retries: usize,
    /// The number of user verification attempts that a successful one
    /// restores.
    pub max_uv_retries: UvRetries,
    /// The number of PIN attempts that may fail in a row before the
    /// authenticator wants a power cycle, where it wants one at all.
    pub power_cycle_after: Option<usize>,
}

/// The result of asking the user for a verification gesture.
#[derive(Clone, Copy, Debug, PartialEq, Eq, Structural)]
pub enum UserVerification {
    /// The user was recognised.
    Verified,
    /// A gesture was made and was not the user's.
    Rejected,
    /// No gesture was made in time.
    TimedOut,
}

/// A token in force, as a mathematical value.
pub struct Grant {
    pub token: PinUvAuthToken,
    pub permissions: Set<Permission>,
    pub relying_party_id: Option<Seq<char>>,
}

/// An authenticator's state, as a mathematical value.
pub struct Model {
    pub min_pin_length: nat,
    pub max_pin_retries: nat,
    pub max_uv_retries: nat,
    pub power_cycle_after: Option<nat>,
    /// The hash of the PIN, where one is set.
    pub pin_hash: Option<Seq<u8>>,
    pub pin_retries: nat,
    /// The number of PIN attempts that may still fail before a power cycle
    /// is needed, where the policy counts them.
    pub power_cycle_state: Option<nat>,
    pub uv_retries: nat,
    pub uv_blocked: bool,
    pub token: Option<Grant>,
}

/// The number of bytes of a PIN that arrives padded with zero bytes at its
/// end: what is left when the zero bytes at the end are taken away.
pub open spec fn spec_pin_length(padded: Seq<u8>) -> nat
    decreases padded.len(),
{
    if padded.len() == 0 || padded.last() != 0 {
        padded.len()
    } else {
        spec_pin_length(padded.drop_last())
    }
}

/// From the length of a padded PIN on, every byte is zero, and the byte
/// before it is not.
pub proof fn lemma_pin_length(padded: Seq<u8>)
    ensures
        spec_pin_length(padded) <= padded.len(),
        forall|k: int| spec_pin_length(padded) <= k < padded.len() ==> padded[k] == 0,
        spec_pin_length(padded) > 0 ==> padded[spec_pin_length(padded) - 1] != 0,
    decreases padded.len(),
{
    if padded.len() == 0 || padded.last() != 0 {
    } else {
        let shorter = padded.drop_last();
        lemma_pin_length(shorter);
        assert forall|k: int| spec_pin_length(padded) <= k < padded.len() implies padded[k]
            == 0 by {
            if k < shorter.len() {
                assert(padded[k] == shorter[k]);
            }
        }
        if spec_pin_length(padded) > 0 {
            assert(padded[spec_pin_length(padded) - 1] == shorter[spec_pin_length(shorter) - 1]);
        }
    }
}

/// The number of bytes of a PIN as it comes out of decryption.
pub fn pin_length(padded: &[u8; 64]) -> (length: usize)
    ensures
        length == spec_pin_length(padded@),
        length <= 64,
{
    let mut length: usize = 64;
    assert(padded@.take(64) =~= padded@);
    while length > 0 && padded[length - 1] == 0
        invariant
            length <= 64,
            spec_pin_length(padded@) == spec_pin_length(padded@.take(length as int)),
        decreases length,
    {
        assert(padded@.take(length as int).drop_last() =~= padded@.take(length - 1));
        length = length - 1;
    }
    length
}

impl Model {
    /// What holds of every state that an authenticator can be in.
    pub open spec fn inv(self) -> bool {
        &&& self.pin_retries <= self.max_pin_retries
        &&& 1 <= self.uv_retries <= self.max_uv_retries <= 25
        &&& self.uv_blocked ==> self.uv_retries == 1
        &&& match (self.power_cycle_state, self.power_cycle_after) {
            (None, None) => true,
            (Some(left), Some(most)) => left <= most,
            _ => false,
        }
    }

    /// The state in which an authenticator leaves the factory, and to
    /// which a reset takes it back.
    pub open spec fn fresh(policy: Policy) -> Model {
        Model {
            min_pin_length: policy.min_pin_length as nat,
            max_pin_retries: policy.max_pin_retries as nat,
            max_uv_retries: policy.max_uv_retries@,
            power_cycle_after: match policy.power_cycle_after {
                Some(n) => Some(n as nat),
                None => None,
            },
            pin_hash: None,
            pin_retries: policy.max_pin_retries as nat,
            power_cycle_state: match policy.power_cycle_after {
                Some(n) => Some(n as nat),
                None => None,
            },
            uv_retries: policy.max_uv_retries@,
            uv_blocked: false,
            token: None,
        }
    }

    /// What forbids trying a PIN, if anything does: no attempts left, a
    /// power cycle that is due, or no PIN to try against.
    pub open spec fn pin_obstacle(self) -> Option<Error> {
        if self.pin_retries == 0 {
            Some(Error::PinBlocked)
        } else if self.power_cycle_state == Some(0nat) {
            Some(Error::PinAuthBlocked)
        } else if self.pin_hash is None {
            Some(Error::OperationDenied)
        } else {
            None
        }
    }

    /// One less than a count, and nothing where the count has nothing
    /// left.
    pub open spec fn one_less(count: nat) -> nat {
        if count > 0 {
            (count - 1) as nat
        } else {
            0
        }
    }

    /// The state after a PIN was tried and was wrong, or an authentication
    /// parameter did not verify: one PIN attempt fewer, and one fewer
    /// before a power cycle is due.
    pub open spec fn after_pin_failure(self) -> Model {
        Model {
            pin_retries: Model::one_less(self.pin_retries),
            power_cycle_state: match self.power_cycle_state {
                Some(left) => Some(Model::one_less(left)),
                None => None,
            },
            ..self
        }
    }

    /// The state after a PIN was tried and was right.
    pub open spec fn after_pin_success(self) -> Model {
        Model {
            pin_retries: self.max_pin_retries,
            power_cycle_state: self.power_cycle_after,
            ..self
        }
    }

    /// Tries a PIN hash against the one that is set. Where something
    /// forbids the try, that is the answer and nothing changes. Else the
    /// right hash restores all attempts, and a wrong one costs one and is
    /// answered as an invalid PIN, also where it was the last.
    pub open spec fn verify_pin(self, pin_hash: Seq<u8>) -> (Model, Result<(), Error>) {
        match self.pin_obstacle() {
            Some(error) => (self, Err(error)),
            None => if self.pin_hash == Some(pin_hash) {
                (self.after_pin_success(), Ok(()))
            } else {
                (self.after_pin_failure(), Err(Error::PinInvalid))
            },
        }
    }

    /// The state after a user verification was tried and failed: one
    /// attempt fewer, or, where the count is at its floor already, no more
    /// attempts at all.
    pub open spec fn after_uv_failure(self) -> Model {
        if self.uv_retries > 1 {
            Model { uv_retries: (self.uv_retries - 1) as nat, ..self }
        } else {
            Model { uv_blocked: true, ..self }
        }
    }

    /// The state after a user verification succeeded.
    pub open spec fn after_uv_success(self) -> Model {
        Model { uv_retries: self.max_uv_retries, ..self }
    }

    /// Takes in the result of one user verification. While user
    /// verification is locked the answer is that, whatever the result. Else
    /// a rejection costs an attempt, a user who did not answer costs none,
    /// and a success restores them all.
    pub open spec fn verify_user(self, outcome: UserVerification) -> (Model, Result<(), Error>) {
        if self.uv_blocked {
            (self, Err(Error::UserVerificationBlocked))
        } else {
            match outcome {
                UserVerification::Rejected => (
                    self.after_uv_failure(),
                    Err(Error::UserVerificationInvalid),
                ),
                UserVerification::TimedOut => (self, Err(Error::UserActionTimeout)),
                UserVerification::Verified => (self.after_uv_success(), Ok(())),
            }
        }
    }

    /// The state with a new token in force.
    pub open spec fn with_token(
        self,
        token: PinUvAuthToken,
        permissions: Set<Permission>,
        relying_party_id: Option<Seq<char>>,
    ) -> Model {
        Model { token: Some(Grant { token, permissions, relying_party_id }), ..self }
    }

    /// The state with no token in force.
    pub open spec fn without_token(self) -> Model {
        Model { token: None, ..self }
    }

    /// The state after the power came back: the token is gone and the
    /// count towards the next power cycle starts again.
    pub open spec fn power_cycled(self) -> Model {
        Model { token: None, power_cycle_state: self.power_cycle_after, ..self }
    }

    /// Whether the token in force lets a command go ahead that needs
    /// `permission` and, where `relying_party_id` is given, acts for that
    /// relying party.
    pub open spec fn authorize(
        self,
        permission: Permission,
        relying_party_id: Option<Seq<char>>,
    ) -> Result<(), Error> {
        match self.token {
            None => Err(Error::UnauthorizedPermission),
            Some(grant) => if !grant.permissions.contains(permission) {
                Err(Error::UnauthorizedPermission)
            } else if grant.relying_party_id is Some && relying_party_id is Some
                && grant.relying_party_id != relying_party_id {
                Err(Error::NotAllowed)
            } else {
                Ok(())
            },
        }
    }

    /// Decides on a command that presents the token in force as the key
    /// of an authentication parameter. The parameter must have verified
    /// before permissions count; one that did not costs a PIN attempt.
    /// Without a token in force there is nothing to verify under, and the
    /// command is as unauthorized as `authorize` says.
    pub open spec fn clearance(
        self,
        mac_valid: bool,
        permission: Permission,
        relying_party_id: Option<Seq<char>>,
    ) -> (Model, Result<(), Error>) {
        if self.token is Some && !mac_valid {
            (self.after_pin_failure(), Err(Error::PinAuthInvalid))
        } else {
            (self, self.authorize(permission, relying_party_id))
        }
    }

    /// The state after `count` user verifications in a row were rejected.
    pub open spec fn after_uv_rejections(self, count: nat) -> Model
        decreases count,
    {
        if count == 0 {
            self
        } else {
            self.after_uv_rejections((count - 1) as nat).verify_user(UserVerification::Rejected).0
        }
    }

    /// Sets the first PIN. An authentication parameter that did not verify
    /// comes first and costs an attempt; then a PIN that is too short for
    /// the policy; then a PIN that is set already, which is denied.
    pub open spec fn set_pin(self, mac_valid: bool, new_pin: Seq<u8>, new_pin_hash: Seq<u8>) -> (
        Model,
        Result<(), Error>,
    ) {
        if !mac_valid {
            (self.after_pin_failure(), Err(Error::PinAuthInvalid))
        } else if spec_pin_length(new_pin) < self.min_pin_length {
            (self, Err(Error::PinPolicyViolation))
        } else if self.pin_hash is Some {
            (self, Err(Error::OperationDenied))
        } else {
            (Model { pin_hash: Some(new_pin_hash), ..self.after_pin_success() }, Ok(()))
        }
    }

    /// Replaces the PIN by a new one, against the old one. An
    /// authentication parameter that did not verify comes first and costs
    /// an attempt; then, where a PIN can be tried, an old PIN that is
    /// wrong, which costs one too; then a new PIN that is too short for the
    /// policy; then what forbade the try. The right old PIN restores the
    /// attempts whatever becomes of the new one, and a new PIN puts the
    /// token out of force.
    pub open spec fn change_pin(
        self,
        mac_valid: bool,
        pin_hash: Seq<u8>,
        new_pin: Seq<u8>,
        new_pin_hash: Seq<u8>,
    ) -> (Model, Result<(), Error>) {
        let too_short = spec_pin_length(new_pin) < self.min_pin_length;
        if !mac_valid {
            (self.after_pin_failure(), Err(Error::PinAuthInvalid))
        } else {
            match self.pin_obstacle() {
                Some(error) => if too_short {
                    (self, Err(Error::PinPolicyViolation))
                } else {
                    (self, Err(error))
                },
                None => if self.pin_hash != Some(pin_hash) {
                    (self.after_pin_failure(), Err(Error::PinInvalid))
                } else if too_short {
                    (self.after_pin_success(), Err(Error::PinPolicyViolation))
                } else {
                    (
                        Model {
                            pin_hash: Some(new_pin_hash),
                            token: None,
                            ..self.after_pin_success()
                        },
                        Ok(()),
                    )
                },
            }
        }
    }

    /// Exchanges the PIN for a token with the given permissions: the PIN is
    /// tried, and the right one puts a new token in force, of the size
    /// that the version calls for and made of the first of the fresh
    /// bytes.
    pub open spec fn exchange_pin(
        self,
        version: Version,
        pin_hash: Seq<u8>,
        entropy: Seq<u8>,
        permissions: Set<Permission>,
        relying_party_id: Option<Seq<char>>,
    ) -> (Model, Result<PinUvAuthToken, Error>) {
        let (next, verified) = self.verify_pin(pin_hash);
        match verified {
            Err(error) => (next, Err(error)),
            Ok(_) => {
                let token = PinUvAuthToken::spec_from_entropy(version, entropy);
                (next.with_token(token, permissions, relying_party_id), Ok(token))
            },
        }
    }

    /// Exchanges a user verification for a token with the given
    /// permissions: the result of the verification is taken in, and a
    /// successful one puts a new token in force, of the size that the
    /// version calls for and made of the first of the fresh bytes.
    pub open spec fn exchange_user(
        self,
        version: Version,
        outcome: UserVerification,
        entropy: Seq<u8>,
        permissions: Set<Permission>,
        relying_party_id: Option<Seq<char>>,
    ) -> (Model, Result<PinUvAuthToken, Error>) {
        let (next, verified) = self.verify_user(outcome);
        match verified {
            Err(error) => (next, Err(error)),
            Ok(_) => {
                let token = PinUvAuthToken::spec_from_entropy(version, entropy);
                (next.with_token(token, permissions, relying_party_id), Ok(token))
            },
        }
    }

    /// Answers a request for a token against the PIN. A request that
    /// names no permission is refused before the PIN is looked at.
    pub open spec fn token_for_pin(
        self,
        version: Version,
        pin_hash: Seq<u8>,
        entropy: Seq<u8>,
        permissions: Set<Permission>,
        relying_party_id: Option<Seq<char>>,
    ) -> (Model, Result<PinUvAuthToken, Error>) {
        if permissions == Set::<Permission>::empty() {
            (self, Err(Error::MissingParameter))
        } else {
            self.exchange_pin(version, pin_hash, entropy, permissions, relying_party_id)
        }
    }

    /// Answers a request for a token against a user verification. A
    /// request that names no permission is refused before the result of
    /// the verification is looked at.
    pub open spec fn token_for_user(
        self,
        version: Version,
        outcome: UserVerification,
        entropy: Seq<u8>,
        permissions: Set<Permission>,
        relying_party_id: Option<Seq<char>>,
    ) -> (Model, Result<PinUvAuthToken, Error>) {
        if permissions == Set::<Permission>::empty() {
            (self, Err(Error::MissingParameter))
        } else {
            self.exchange_user(version, outcome, entropy, permissions, relying_party_id)
        }
    }
}

/// The permissions of a token that was asked for without naming any: to
/// make credentials and to get assertions.
pub open spec fn default_permissions() -> Set<Permission> {
    Set::<Permission>::empty().insert(Permission::MakeCredential).insert(Permission::GetAssertion)
}

/// Every step leaves the state such as an authenticator can be in.
pub proof fn lemma_steps_keep_invariant(
    state: Model,
    mac_valid: bool,
    pin_hash: Seq<u8>,
    new_pin: Seq<u8>,
    new_pin_hash: Seq<u8>,
    outcome: UserVerification,
    version: Version,
    entropy: Seq<u8>,
    permissions: Set<Permission>,
    permission: Permission,
    relying_party_id: Option<Seq<char>>,
)
    requires
        state.inv(),
    ensures
        state.verify_pin(pin_hash).0.inv(),
        state.verify_user(outcome).0.inv(),
        state.set_pin(mac_valid, new_pin, new_pin_hash).0.inv(),
        state.change_pin(mac_valid, pin_hash, new_pin, new_pin_hash).0.inv(),
        state.exchange_pin(version, pin_hash, entropy, permissions, relying_party_id).0.inv(),
        state.exchange_user(version, outcome, entropy, permissions, relying_party_id).0.inv(),
        state.token_for_pin(version, pin_hash, entropy, permissions, relying_party_id).0.inv(),
        state.token_for_user(version, outcome, entropy, permissions, relying_party_id).0.inv(),
        state.clearance(mac_valid, permission, relying_party_id).0.inv(),
        state.without_token().inv(),
        state.power_cycled().inv(),
{
}

/// A command goes ahead under the token in force if that token carries the
/// permission and, where both the token and the command name a relying
/// party, they name the same one. Without the permission it is refused as
/// unauthorized, whatever the relying party; with it and with another
/// relying party, as not allowed.
pub proof fn lemma_enforcement(
    state: Model,
    permission: Permission,
    relying_party_id: Option<Seq<char>>,
)
    ensures
        state.authorize(permission, relying_party_id) == Err::<(), Error>(
            Error::UnauthorizedPermission,
        ) <==> !(state.token matches Some(grant) && grant.permissions.contains(permission)),
        state.authorize(permission, relying_party_id) == Err::<(), Error>(Error::NotAllowed) <==> (
        state.token matches Some(grant) && grant.permissions.contains(permission)
            && grant.relying_party_id is Some && relying_party_id is Some && grant.relying_party_id
            != relying_party_id),
        state.authorize(permission, relying_party_id) is Ok <==> (state.token matches Some(grant)
            && grant.permissions.contains(permission) && (grant.relying_party_id is None
            || relying_party_id is None || grant.relying_party_id == relying_party_id)),
{
}

/// A request for a token that names no permission is refused as lacking a
/// parameter, and nothing is tried for it: the state stays as it is,
/// whatever PIN or user verification came with the request.
pub proof fn lemma_no_permissions_nothing_tried(
    state: Model,
    version: Version,
    pin_hash: Seq<u8>,
    outcome: UserVerification,
    entropy: Seq<u8>,
    relying_party_id: Option<Seq<char>>,
)
    ensures
        state.token_for_pin(
            version,
            pin_hash,
            entropy,
            Set::<Permission>::empty(),
            relying_party_id,
        ) == (state, Err::<PinUvAuthToken, Error>(Error::MissingParameter)),
        state.token_for_user(
            version,
            outcome,
            entropy,
            Set::<Permission>::empty(),
            relying_party_id,
        ) == (state, Err::<PinUvAuthToken, Error>(Error::MissingParameter)),
{
}

/// Every token that is issued has the length that the version asked for
/// calls for, which is sixteen or thirty-two bytes, and is in force from
/// then on with the permissions and for the relying party that were asked
/// for.
pub proof fn lemma_issued_tokens_match_version(
    state: Model,
    version: Version,
    pin_hash: Seq<u8>,
    outcome: UserVerification,
    entropy: Seq<u8>,
    permissions: Set<Permission>,
    relying_party_id: Option<Seq<char>>,
)
    requires
        entropy.len() == 32,
    ensures
        state.exchange_pin(version, pin_hash, entropy, permissions, relying_party_id).1 matches Ok(
            token,
        ) ==> {
            &&& token.spec_version() == version
            &&& token@.len() == version.spec_token_length()
            &&& token@.len() == 16 || token@.len() == 32
            &&& state.exchange_pin(
                version,
                pin_hash,
                entropy,
                permissions,
                relying_party_id,
            ).0.token == Some(Grant { token, permissions, relying_party_id })
        },
        state.exchange_user(version, outcome, entropy, permissions, relying_party_id).1 matches Ok(
            token,
        ) ==> {
            &&& token.spec_version() == version
            &&& token@.len() == version.spec_token_length()
            &&& token@.len() == 16 || token@.len() == 32
            &&& state.exchange_user(
                version,
                outcome,
                entropy,
                permissions,
                relying_party_id,
            ).0.token == Some(Grant { token, permissions, relying_party_id })
        },
{
    lemma_token_from_entropy(version, entropy);
}

/// With one PIN attempt left, a wrong PIN is answered as invalid and takes
/// the last attempt away. From then on every PIN, the right one too, is
/// answered as blocked, when it is tried and when it is offered for a
/// token, and the state stays as it is.
pub proof fn lemma_pin_lockout(
    state: Model,
    wrong: Seq<u8>,
    offered: Seq<u8>,
    version: Version,
    entropy: Seq<u8>,
    permissions: Set<Permission>,
    relying_party_id: Option<Seq<char>>,
)
    requires
        state.pin_retries == 1,
        state.pin_hash is Some,
        state.pin_hash != Some(wrong),
        state.power_cycle_state != Some(0nat),
    ensures
        state.verify_pin(wrong).1 == Err::<(), Error>(Error::PinInvalid),
        state.verify_pin(wrong).0.pin_retries == 0,
        state.verify_pin(wrong).0.verify_pin(offered) == (
            state.verify_pin(wrong).0,
            Err::<(), Error>(Error::PinBlocked),
        ),
        state.verify_pin(wrong).0.exchange_pin(
            version,
            offered,
            entropy,
            permissions,
            relying_party_id,
        ) == (state.verify_pin(wrong).0, Err::<PinUvAuthToken, Error>(Error::PinBlocked)),
{
}

/// Without PIN attempts left, every PIN is answered as blocked and the
/// state stays as it is.
pub proof fn lemma_pin_blocked_is_final(state: Model, offered: Seq<u8>)
    requires
        state.pin_retries == 0,
    ensures
        state.verify_pin(offered) == (state, Err::<(), Error>(Error::PinBlocked)),
{
}

/// While user verification is not locked, each rejection of the first
/// `count`, for `count` below the number of attempts that are left, is
/// answered as invalid and takes one attempt away.
pub proof fn lemma_uv_rejections_count_down(state: Model, count: nat)
    requires
        state.inv(),
        !state.uv_blocked,
        count < state.uv_retries,
    ensures
        state.after_uv_rejections(count) == (Model {
            uv_retries: (state.uv_retries - count) as nat,
            ..state
        }),
        state.after_uv_rejections(count).verify_user(UserVerification::Rejected).1 == Err::<
            (),
            Error,
        >(Error::UserVerificationInvalid),
    decreases count,
{
    if count > 0 {
        lemma_uv_rejections_count_down(state, (count - 1) as nat);
    }
}

/// After as many rejections in a row as there were attempts left, the
/// count is at its floor and user verification is locked: whatever the
/// next verification gives, it is answered as blocked, and the state stays
/// as it is.
pub proof fn lemma_uv_lockout(state: Model, outcome: UserVerification)
    requires
        state.inv(),
        !state.uv_blocked,
    ensures
        state.after_uv_rejections(state.uv_retries) == (Model {
            uv_retries: 1,
            uv_blocked: true,
            ..state
        }),
        state.after_uv_rejections(state.uv_retries).verify_user(outcome) == (
            state.after_uv_rejections(state.uv_retries),
            Err::<(), Error>(Error::UserVerificationBlocked),
        ),
{
    lemma_uv_rejections_count_down(state, (state.uv_retries - 1) as nat);
}

/// The answer to a request for the key agreement key, given what the
/// cryptographic core came back with when asked for its public key: that
/// key in a response, or the error of the core as it is.
pub open spec fn spec_key_agreement_response<E>(outcome: Result<cosey::PublicKey, E>) -> Result<
    Response,
    E,
> {
    match outcome {
        Ok(key_agreement) => Ok(Response::GetKeyAgreement { key_agreement }),
        Err(error) => Err(error),
    }
}

/// Makes the answer to a request for the key agreement key of what the
/// cryptographic core came back with when asked for its public key.
pub fn key_agreement_response<E>(outcome: Result<cosey::PublicKey, E>) -> (response: Result<
    Response,
    E,
>)
    ensures
        response == spec_key_agreement_response(outcome),
{
    match outcome {
        Ok(key_agreement) => Ok(Response::GetKeyAgreement { key_agreement }),
        Err(error) => Err(error),
    }
}

/// Answers a request for the key agreement key: the public key of the
/// cryptographic core, which the caller picks by the version that the
/// request names. The state has no part in it.
///
/// The core is asked once for its public key, and the answer is made of
/// what it came back with: where it gave a key, that key in a response,
/// and where it failed, its error as it is.
pub fn get_key_agreement<A: Authenticator>(authenticator: &A) -> (response: Result<
    Response,
    A::Error,
>)
    ensures
        exists|outcome: Result<cosey::PublicKey, A::Error>|
            {
                &&& #[trigger] call_ensures(A::get_public_key, (authenticator,), outcome)
                &&& response == spec_key_agreement_response(outcome)
            },
        response matches Ok(r) ==> r == (Response::GetKeyAgreement {
            key_agreement: authenticator.public_key(),
        }),
{
    let outcome = authenticator.get_public_key();
    key_agreement_response(outcome)
}

/// A token in force, with what it is good for.
#[derive(Debug)]
struct Binding {
    token: PinUvAuthToken,
    permissions: PermissionSet,
    relying_party_id: Option<String>,
}

impl Binding {
    spec fn grant(&self) -> Grant {
        Grant {
            token: self.token,
            permissions: self.permissions@,
            relying_party_id: match self.relying_party_id {
                Some(id) => Some(id@),
                None => None,
            },
        }
    }
}

/// The state of one authenticator. It is made at power-on, changed by the
/// command handlers below and by nothing else, and taken back to its first
/// form by a factory reset.
#[derive(Debug)]
pub struct State {
    policy: Policy,
    pin_hash: Option<[u8; 16]>,
    pin_retries: usize,
    power_cycle_state: Option<usize>,
    uv_retries: UvRetries,
    uv_blocked: bool,
    token: Option<Binding>,
}

impl View for State {
    type V = Model;

    closed spec fn view(&self) -> Model {
        Model {
            min_pin_length: self.policy.min_pin_length as nat,
            max_pin_retries: self.policy.max_pin_retries as nat,
            max_uv_retries: self.policy.max_uv_retries@,
            power_cycle_after: match self.policy.power_cycle_after {
                Some(n) => Some(n as nat),
                None => None,
            },
            pin_hash: match self.pin_hash {
                Some(hash) => Some(hash@),
                None => None,
            },
            pin_retries: self.pin_retries as nat,
            power_cycle_state: match self.power_cycle_state {
                Some(n) => Some(n as nat),
                None => None,
            },
            uv_retries: self.uv_retries@,
            uv_blocked: self.uv_blocked,
            token: match self.token {
                Some(binding) => Some(binding.grant()),
                None => None,
            },
        }
    }
}

impl State {
    /// The state is one that an authenticator can be in.
    #[verifier::type_invariant]
    pub closed spec fn well_formed(&self) -> bool {
        self@.inv()
    }

    /// The state of an authenticator that has never been used.
    pub fn new(policy: Policy) -> (state: State)
        ensures
            state@ == Model::fresh(policy),
            state@.inv(),
    {
        proof {
            use_type_invariant(policy.max_uv_retries);
        }
        State {
            policy,
            pin_hash: None,
            pin_retries: policy.max_pin_retries,
            power_cycle_state: policy.power_cycle_after,
            uv_retries: policy.max_uv_retries,
            uv_blocked: false,
            token: None,
        }
    }

    /// The number of PIN attempts that are left.
    pub fn pin_retries(&self) -> (left: usize)
        ensures
            left == self@.pin_retries,
    {
        self.pin_retries
    }

    /// The number of PIN attempts that may still fail before a power cycle
    /// is needed, where the policy counts them.
    pub fn power_cycle_state(&self) -> (left: Option<usize>)
        ensures
            match left {
                Some(n) => self@.power_cycle_state == Some(n as nat),
                None => self@.power_cycle_state is None,
            },
    {
        self.power_cycle_state
    }

    /// The number of user verification attempts that are left.
    pub fn uv_retries(&self) -> (left: UvRetries)
        ensures
            left@ == self@.uv_retries,
    {
        self.uv_retries
    }

    /// Whether user verification is locked.
    pub fn uv_blocked(&self) -> (blocked: bool)
        ensures
            blocked == self@.uv_blocked,
    {
        self.uv_blocked
    }

    /// Whether a PIN is set.
    pub fn has_pin(&self) -> (set: bool)
        ensures
            set == self@.pin_hash is Some,
    {
        self.pin_hash.is_some()
    }

    /// The token in force, if there is one.
    pub fn token(&self) -> (token: Option<PinUvAuthToken>)
        ensures
            match token {
                Some(t) => self@.token matches Some(grant) && grant.token == t,
                None => self@.token is None,
            },
    {
        match &self.token {
            Some(binding) => Some(binding.token),
            None => None,
        }
    }

    /// Answers a request for the number of PIN attempts that are left.
    pub fn get_pin_retries(&self) -> (response: Response)
        ensures
            response matches Response::GetPinRetries { pin_retries, power_cycle_state }
                && pin_retries == self@.pin_retries && match power_cycle_state {
                Some(n) => self@.power_cycle_state == Some(n as nat),
                None => self@.power_cycle_state is None,
            },
    {
        Response::GetPinRetries {
            pin_retries: self.pin_retries,
            power_cycle_state: self.power_cycle_state,
        }
    }

    /// Answers a request for the number of user verification attempts that
    /// are left.
    pub fn get_uv_retries(&self) -> (response: Response)
        ensures
            response matches Response::GetUvRetries { uv_retries } && uv_retries@
                == self@.uv_retries,
            1 <= self@.uv_retries <= 25,
    {
        proof {
            use_type_invariant(self);
        }
        Response::GetUvRetries { uv_retries: self.uv_retries }
    }

    /// Tries a PIN hash against the PIN that is set. A wrong one costs an
    /// attempt; the right one restores them all.
    pub fn verify_pin(&mut self, pin_hash: &[u8; 16]) -> (verified: Result<(), Error>)
        ensures
            final(self)@ == old(self)@.verify_pin(pin_hash@).0,
            verified == old(self)@.verify_pin(pin_hash@).1,
            final(self)@.inv(),
    {
        proof {
            use_type_invariant(&*self);
        }
        if self.pin_retries == 0 {
            return Err(Error::PinBlocked);
        }
        if let Some(left) = self.power_cycle_state {
            if left == 0 {
                return Err(Error::PinAuthBlocked);
            }
        }
        let matches = match &self.pin_hash {
            None => {
                return Err(Error::OperationDenied);
            },
            Some(stored) => same_bytes(stored.as_slice(), pin_hash.as_slice()),
        };
        if matches {
            self.pin_retries = self.policy.max_pin_retries;
            self.power_cycle_state = self.policy.power_cycle_after;
            Ok(())
        } else {
            self.count_pin_failure();
            Err(Error::PinInvalid)
        }
    }

    /// Takes one PIN attempt away, and one of those before a power cycle
    /// is due.
    fn count_pin_failure(&mut self)
        ensures
            final(self)@ == old(self)@.after_pin_failure(),
    {
        proof {
            use_type_invariant(&*self);
        }
        if self.pin_retries > 0 {
            self.pin_retries = self.pin_retries - 1;
        }
        if let Some(left) = self.power_cycle_state {
            if left > 0 {
                self.power_cycle_state = Some(left - 1);
            }
        }
    }

    /// Takes in the result of asking the user for a verification gesture.
    /// While user verification is locked, the result is not looked at.
    pub fn verify_user(&mut self, outcome: UserVerification) -> (verified: Result<(), Error>)
        ensures
            final(self)@ == old(self)@.verify_user(outcome).0,
            verified == old(self)@.verify_user(outcome).1,
            final(self)@.inv(),
    {
        proof {
            use_type_invariant(&*self);
        }
        if self.uv_blocked {
            return Err(Error::UserVerificationBlocked);
        }
        match outcome {
            UserVerification::Rejected => {
                let left = self.uv_retries.get();
                if left > 1 {
                    match UvRetries::new(left - 1) {
                        Some(fewer) => {
                            self.uv_retries = fewer;
                        },
                        None => {},
                    }
                } else {
                    self.uv_blocked = true;
                }
                Err(Error::UserVerificationInvalid)
            },
            UserVerification::TimedOut => Err(Error::UserActionTimeout),
            UserVerification::Verified => {
                self.uv_retries = self.policy.max_uv_retries;
                Ok(())
            },
        }
    }

    /// Puts a new token in force, of the size that `version` calls for.
    fn issue(
        &mut self,
        version: Version,
        entropy: &[u8; 32],
        permissions: PermissionSet,
        relying_party_id: Option<String>,
    ) -> (token: PinUvAuthToken)
        ensures
            token == PinUvAuthToken::spec_from_entropy(version, entropy@),
            final(self)@ == old(self)@.with_token(
                token,
                permissions@,
                text_view(relying_party_id),
            ),
            token.spec_version() == version,
    {
        proof {
            use_type_invariant(&*self);
        }
        let token = PinUvAuthToken::from_entropy(version, entropy);
        self.token = Some(Binding { token, permissions, relying_party_id });
        token
    }

    /// Handles the command that sets the first PIN. `mac_valid` says whether
    /// the authentication parameter verified over the encrypted PIN,
    /// `new_pin` is what the encrypted PIN decrypted to, with its padding,
    /// and `new_pin_hash` is the hash under which the PIN is to be kept.
    pub fn set_pin(
        &mut self,
        mac_valid: bool,
        new_pin: &[u8; 64],
        new_pin_hash: &[u8; 16],
    ) -> (response: Result<Response, Error>)
        ensures
            final(self)@ == old(self)@.set_pin(mac_valid, new_pin@, new_pin_hash@).0,
            response == match old(self)@.set_pin(mac_valid, new_pin@, new_pin_hash@).1 {
                Ok(_) => Ok::<Response, Error>(Response::SetPin),
                Err(error) => Err::<Response, Error>(error),
            },
            final(self)@.inv(),
    {
        proof {
            use_type_invariant(&*self);
        }
        if !mac_valid {
            self.count_pin_failure();
            proof {
                use_type_invariant(&*self);
            }
            return Err(Error::PinAuthInvalid);
        }
        if pin_length(new_pin) < self.policy.min_pin_length {
            return Err(Error::PinPolicyViolation);
        }
        if self.pin_hash.is_some() {
            return Err(Error::OperationDenied);
        }
        self.pin_hash = Some(*new_pin_hash);
        self.pin_retries = self.policy.max_pin_retries;
        self.power_cycle_state = self.policy.power_cycle_after;
        Ok(Response::SetPin)
    }

    /// Handles the command that replaces the PIN. `mac_valid` says whether
    /// the authentication parameter verified, `pin_hash` is what the
    /// encrypted hash of the present PIN decrypted to, `new_pin` what the
    /// encrypted new PIN decrypted to, with its padding, and `new_pin_hash`
    /// the hash under which the new PIN is to be kept. A new PIN puts the
    /// token out of force.
    pub fn change_pin(
        &mut self,
        mac_valid: bool,
        pin_hash: &[u8; 16],
        new_pin: &[u8; 64],
        new_pin_hash: &[u8; 16],
    ) -> (response: Result<Response, Error>)
        ensures
            final(self)@ == old(self)@.change_pin(
                mac_valid,
                pin_hash@,
                new_pin@,
                new_pin_hash@,
            ).0,
            response == match old(self)@.change_pin(
                mac_valid,
                pin_hash@,
                new_pin@,
                new_pin_hash@,
            ).1 {
                Ok(_) => Ok::<Response, Error>(Response::ChangePin),
                Err(error) => Err::<Response, Error>(error),
            },
            final(self)@.inv(),
    {
        proof {
            use_type_invariant(&*self);
        }
        if !mac_valid {
            self.count_pin_failure();
            proof {
                use_type_invariant(&*self);
            }
            return Err(Error::PinAuthInvalid);
        }
        let too_short = pin_length(new_pin) < self.policy.min_pin_length;
        match self.verify_pin(pin_hash) {
            Err(Error::PinInvalid) => Err(Error::PinInvalid),
            Err(obstacle) => {
                if too_short {
                    Err(Error::PinPolicyViolation)
                } else {
                    Err(obstacle)
                }
            },
            Ok(()) => {
                if too_short {
                    return Err(Error::PinPolicyViolation);
                }
                self.pin_hash = Some(*new_pin_hash);
                self.token = None;
                Ok(Response::ChangePin)
            },
        }
    }

    /// Handles the command that exchanges the PIN for a token, as it was
    /// before tokens had permissions. `pin_hash` is what the encrypted PIN
    /// hash decrypted to and `entropy` is fresh from a random source. The
    /// token is good for making credentials and for getting assertions,
    /// for any relying party. It is handed out as it was issued: the
    /// caller encrypts it under the shared secret for the response.
    pub fn get_pin_token(
        &mut self,
        version: Version,
        pin_hash: &[u8; 16],
        entropy: &[u8; 32],
    ) -> (issued: Result<PinUvAuthToken, Error>)
        ensures
            final(self)@ == old(self)@.exchange_pin(
                version,
                pin_hash@,
                entropy@,
                default_permissions(),
                None,
            ).0,
            issued == old(self)@.exchange_pin(
                version,
                pin_hash@,
                entropy@,
                default_permissions(),
                None,
            ).1,
            issued matches Ok(token) ==> token.spec_version() == version,
            final(self)@.inv(),
    {
        let mut permissions = PermissionSet::new();
        permissions.insert(Permission::MakeCredential);
        permissions.insert(Permission::GetAssertion);
        match self.verify_pin(pin_hash) {
            Err(error) => Err(error),
            Ok(()) => {
                let token = self.issue(version, entropy, permissions, None);
                proof {
                    use_type_invariant(&*self);
                }
                Ok(token)
            },
        }
    }

    /// Handles the command that exchanges a user verification for a token.
    /// `outcome` is the result of asking the user and `entropy` is fresh
    /// from a random source. With an empty permission set nothing is
    /// tried. The token is handed out as it was issued: the caller
    /// encrypts it under the shared secret for the response.
    pub fn get_pin_uv_auth_token_using_uv_with_permissions(
        &mut self,
        version: Version,
        outcome: UserVerification,
        entropy: &[u8; 32],
        permissions: PermissionSet,
        relying_party_id: Option<String>,
    ) -> (issued: Result<PinUvAuthToken, Error>)
        ensures
            final(self)@ == old(self)@.token_for_user(
                version,
                outcome,
                entropy@,
                permissions@,
                text_view(relying_party_id),
            ).0,
            issued == old(self)@.token_for_user(
                version,
                outcome,
                entropy@,
                permissions@,
                text_view(relying_party_id),
            ).1,
            issued matches Ok(token) ==> token.spec_version() == version,
            final(self)@.inv(),
    {
        proof {
            use_type_invariant(&*self);
        }
        if permissions.is_empty() {
            return Err(Error::MissingParameter);
        }
        match self.verify_user(outcome) {
            Err(error) => Err(error),
            Ok(()) => {
                let token = self.issue(version, entropy, permissions, relying_party_id);
                proof {
                    use_type_invariant(&*self);
                }
                Ok(token)
            },
        }
    }

    /// Handles the command that exchanges the PIN for a token with
    /// permissions. `pin_hash` is what the encrypted PIN hash decrypted to
    /// and `entropy` is fresh from a random source. With an empty
    /// permission set nothing is tried. The token is handed out as it was
    /// issued: the caller encrypts it under the shared secret for the
    /// response.
    pub fn get_pin_uv_auth_token_using_pin_with_permissions(
        &mut self,
        version: Version,
        pin_hash: &[u8; 16],
        entropy: &[u8; 32],
        permissions: PermissionSet,
        relying_party_id: Option<String>,
    ) -> (issued: Result<PinUvAuthToken, Error>)
        ensures
            final(self)@ == old(self)@.token_for_pin(
                version,
                pin_hash@,
                entropy@,
                permissions@,
                text_view(relying_party_id),
            ).0,
            issued == old(self)@.token_for_pin(
                version,
                pin_hash@,
                entropy@,
                permissions@,
                text_view(relying_party_id),
            ).1,
            issued matches Ok(token) ==> token.spec_version() == version,
            final(self)@.inv(),
    {
        proof {
            use_type_invariant(&*self);
        }
        if permissions.is_empty() {
            return Err(Error::MissingParameter);
        }
        match self.verify_pin(pin_hash) {
            Err(error) => Err(error),
            Ok(()) => {
                let token = self.issue(version, entropy, permissions, relying_party_id);
                proof {
                    use_type_invariant(&*self);
                }
                Ok(token)
            },
        }
    }

    /// Whether the token in force lets a command go ahead that needs
    /// `permission`; where `relying_party_id` is given, the command acts
    /// for that relying party.
    pub fn authorize(&self, permission: Permission, relying_party_id: Option<&str>) -> (allowed:
        Result<(), Error>)
        ensures
            allowed == self@.authorize(
                permission,
                match relying_party_id {
                    Some(id) => Some(id@),
                    None => None,
                },
            ),
    {
        match &self.token {
            None => Err(Error::UnauthorizedPermission),
            Some(binding) => {
                if !binding.permissions.contains(permission) {
                    return Err(Error::UnauthorizedPermission);
                }
                match (&binding.relying_party_id, relying_party_id) {
                    (Some(bound), Some(target)) => {
                        let target = target.to_owned();
                        if *bound == target {
                            Ok(())
                        } else {
                            Err(Error::NotAllowed)
                        }
                    },
                    _ => Ok(()),
                }
            },
        }
    }

    /// Decides on a command that presented the token in force as the key
    /// of its authentication parameter. `mac_valid` says whether that
    /// parameter verified; one that did not costs a PIN attempt.
    pub fn clearance(
        &mut self,
        mac_valid: bool,
        permission: Permission,
        relying_party_id: Option<&str>,
    ) -> (allowed: Result<(), Error>)
        ensures
            final(self)@ == old(self)@.clearance(
                mac_valid,
                permission,
                match relying_party_id {
                    Some(id) => Some(id@),
                    None => None,
                },
            ).0,
            allowed == old(self)@.clearance(
                mac_valid,
                permission,
                match relying_party_id {
                    Some(id) => Some(id@),
                    None => None,
                },
            ).1,
            final(self)@.inv(),
    {
        proof {
            use_type_invariant(&*self);
        }
        if self.token.is_some() && !mac_valid {
            self.count_pin_failure();
            proof {
                use_type_invariant(&*self);
            }
            Err(Error::PinAuthInvalid)
        } else {
            self.authorize(permission, relying_party_id)
        }
    }

    /// Has the authenticator verify the authentication parameter of a
    /// command under the token in force, and then decides as `clearance`
    /// does. Without a token in force nothing is verified.
    pub fn authorize_command<A: Authenticator>(
        &mut self,
        authenticator: &A,
        message: &[u8],
        pin_uv_auth_param: &[u8],
        permission: Permission,
        relying_party_id: Option<&str>,
    ) -> (allowed: Result<(), Error>)
        ensures
            ({
                let mac_valid = old(self)@.token matches Some(grant) && authenticator.verifies(
                    grant.token@,
                    message@,
                    pin_uv_auth_param@,
                );
                let target = match relying_party_id {
                    Some(id) => Some(id@),
                    None => None,
                };
                &&& final(self)@ == old(self)@.clearance(mac_valid, permission, target).0
                &&& allowed == old(self)@.clearance(mac_valid, permission, target).1
            }),
            final(self)@.inv(),
    {
        let mac_valid = match self.token() {
            None => false,
            Some(token) => authenticator.verify(token.as_ref(), message, pin_uv_auth_param).is_ok(),
        };
        self.clearance(mac_valid, permission, relying_party_id)
    }

    /// Takes the token out of force. The PIN and the counters stay.
    pub fn reset_pin_uv_auth_token(&mut self)
        ensures
            final(self)@ == old(self)@.without_token(),
            final(self)@.inv(),
    {
        proof {
            use_type_invariant(&*self);
        }
        self.token = None;
    }

    /// What happens when the power comes back: the token is out of force,
    /// and the count towards the next power cycle starts again.
    pub fn power_cycle(&mut self)
        ensures
            final(self)@ == old(self)@.power_cycled(),
            final(self)@.inv(),
    {
        proof {
            use_type_invariant(&*self);
        }
        self.token = None;
        self.power_cycle_state = self.policy.power_cycle_after;
    }

    /// Takes the authenticator back to the state in which it left the
    /// factory, under the policy given.
    pub fn factory_reset(&mut self, policy: Policy)
        ensures
            final(self)@ == Model::fresh(policy),
            final(self)@.inv(),
    {
        *self = State::new(policy);
    }
}

} // verus!
