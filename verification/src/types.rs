//! Plain values the policy speaks of.

use vstd::prelude::*;

verus! {

/// The fixed-size identifier of the owner of a signing key. Two identifiers
/// are the same exactly when all their bytes are.
#[derive(Clone, Copy, Debug)]
pub struct AccountHash {
    pub bytes: [u8; 32],
}

impl AccountHash {
    /// The identifier made of the given bytes.
    pub fn new(bytes: [u8; 32]) -> (hash: AccountHash)
        ensures
            hash.bytes == bytes,
    {
        AccountHash { bytes }
    }

    /// The bytes of the identifier.
    pub fn value(&self) -> (bytes: [u8; 32])
        ensures
            bytes == self.bytes,
    {
        self.bytes
    }
}

impl PartialEq for AccountHash {
    fn eq(&self, other: &AccountHash) -> (same: bool) {
        let mut i: usize = 0;
        while i < 32
            invariant
                i <= 32,
                forall|j: int| 0 <= j < i ==> self.bytes[j] == other.bytes[j],
            decreases 32 - i,
        {
            if self.bytes[i] != other.bytes[i] {
                return false;
            }
            i += 1;
        }
        assert(self.bytes =~= other.bytes);
        true
    }
}

impl Eq for AccountHash {}

impl vstd::std_specs::cmp::PartialEqSpecImpl for AccountHash {
    open spec fn obeys_eq_spec() -> bool {
        true
    }

    open spec fn eq_spec(&self, other: &AccountHash) -> bool {
        *self == *other
    }
}

/// The weight of a stored key: an integer from 1 to 255. Zero is no weight
/// a key can have; a request for it asks for the key's removal.
#[derive(Clone, Copy, Debug, PartialEq, Eq, Structural)]
pub struct Weight {
    value: u8,
}

impl Weight {
    #[verifier::type_invariant]
    spec fn positive(self) -> bool {
        self.value > 0
    }

    /// The number this weight stands for.
    pub closed spec fn spec_value(self) -> u8 {
        self.value
    }

    /// The weight `value`, or `None` for zero.
    pub fn new(value: u8) -> (weight: Option<Weight>)
        ensures
            value == 0 <==> weight is None,
            weight matches Some(w) ==> w.spec_value() == value,
    {
        if value == 0 {
            None
        } else {
            Some(Weight { value })
        }
    }

    /// The number this weight stands for, which is never zero.
    #[verifier::when_used_as_spec(spec_value)]
    pub fn value(self) -> (value: u8)
        ensures
            value == self.spec_value(),
            value > 0,
    {
        proof {
            use_type_invariant(self);
        }
        self.value
    }
}

/// The two classes of action that a threshold guards.
#[derive(Clone, Copy, Debug, PartialEq, Eq, Structural)]
pub enum ActionType {
    /// Sending a deploy in the account's name.
    Deployment,
    /// Changing the account's keys or thresholds.
    KeyManagement,
}

/// Why the store refused to add a key.
#[derive(Clone, Copy, Debug, PartialEq, Eq, Structural)]
pub enum AddKeyFailure {
    /// The account already holds as many keys as it may.
    MaxKeysLimit,
    /// The key is already associated with the account.
    DuplicateKey,
    /// The signers' weight is below the key-management threshold.
    PermissionDenied,
}

/// Why the store refused to change the weight of a key.
#[derive(Clone, Copy, Debug, PartialEq, Eq, Structural)]
pub enum UpdateKeyFailure {
    /// The key is not associated with the account.
    MissingKey,
    /// The signers' weight is below the key-management threshold.
    PermissionDenied,
    /// With the new weight the keys would no longer reach a threshold.
    ThresholdViolation,
}

/// Why the store refused to remove a key.
#[derive(Clone, Copy, Debug, PartialEq, Eq, Structural)]
pub enum RemoveKeyFailure {
    /// The key is not associated with the account.
    MissingKey,
    /// The signers' weight is below the key-management threshold.
    PermissionDenied,
    /// Without the key the others would no longer reach a threshold.
    ThresholdViolation,
}

/// Why the store refused to set a threshold.
#[derive(Clone, Copy, Debug, PartialEq, Eq, Structural)]
pub enum SetThresholdFailure {
    /// The key-management threshold would fall below the deployment one.
    KeyManagementThreshold,
    /// The deployment threshold would exceed the key-management one.
    DeploymentThreshold,
    /// The signers' weight is below the key-management threshold.
    PermissionDenied,
    /// The threshold would exceed the total weight of the account's keys.
    InsufficientTotalWeight,
}

} // verus!
