//! An account's keys and thresholds, and the four edits its store accepts.

use vstd::prelude::*;
use crate::key_set::{total_weight, valid_keys, KeySet};
use crate::types::{
    AccountHash, ActionType, AddKeyFailure, RemoveKeyFailure, SetThresholdFailure,
    UpdateKeyFailure, Weight,
};

verus! {

/// What an account's policy consists of: the weight of each key, the two
/// thresholds, and the number of keys the account may hold.
pub struct AccountState {
    pub keys: Map<AccountHash, u8>,
    pub deployment: u8,
    pub key_management: u8,
    pub max_keys: nat,
}

impl AccountState {
    /// A new account: the owner's key with weight one, and both thresholds
    /// at one.
    pub open spec fn fresh(owner: AccountHash, max_keys: nat) -> AccountState {
        AccountState {
            keys: Map::<AccountHash, u8>::empty().insert(owner, 1u8),
            deployment: 1,
            key_management: 1,
            max_keys,
        }
    }

    /// The weight all keys raise together.
    pub open spec fn total_weight(self) -> nat {
        total_weight(self.keys)
    }

    /// An account is governable when the deployment threshold is at least
    /// one and at most the key-management threshold, neither exceeds the
    /// total weight of the keys, no key has weight zero, and there are no
    /// more keys than allowed.
    pub open spec fn governable(self) -> bool {
        &&& valid_keys(self.keys)
        &&& 1 <= self.deployment
        &&& self.deployment <= self.key_management
        &&& self.key_management <= self.total_weight()
        &&& self.deployment <= self.total_weight()
        &&& self.keys.len() <= self.max_keys
    }

    /// The weight the signers raise: the sum of the weights of those keys
    /// whose owner is among them.
    pub open spec fn authorization_weight(self, signers: Set<AccountHash>) -> nat {
        total_weight(self.keys.restrict(signers))
    }

    /// Whether the signers may change keys and thresholds.
    pub open spec fn can_manage_keys(self, signers: Set<AccountHash>) -> bool {
        self.authorization_weight(signers) >= self.key_management
    }

    /// Whether the signers may send a deploy in the account's name.
    pub open spec fn can_deploy(self, signers: Set<AccountHash>) -> bool {
        self.authorization_weight(signers) >= self.deployment
    }

    /// This state with the key of `account` at `weight`.
    pub open spec fn with_key(self, account: AccountHash, weight: u8) -> AccountState {
        AccountState { keys: self.keys.insert(account, weight), ..self }
    }

    /// This state without the key of `account`.
    pub open spec fn without_key(self, account: AccountHash) -> AccountState {
        AccountState { keys: self.keys.remove(account), ..self }
    }

    /// This state with the threshold of `action` at `value`.
    pub open spec fn with_threshold(self, action: ActionType, value: u8) -> AccountState {
        match action {
            ActionType::Deployment => AccountState { deployment: value, ..self },
            ActionType::KeyManagement => AccountState { key_management: value, ..self },
        }
    }

    /// Whether the keys still reach both thresholds.
    pub open spec fn reaches_thresholds(self) -> bool {
        self.total_weight() >= self.deployment && self.total_weight() >= self.key_management
    }

    /// Adding a key for an account that has none.
    pub open spec fn add_key(self, signers: Set<AccountHash>, account: AccountHash, weight: u8) -> Result<
        AccountState,
        AddKeyFailure,
    > {
        if !self.can_manage_keys(signers) {
            Err(AddKeyFailure::PermissionDenied)
        } else if self.keys.len() >= self.max_keys {
            Err(AddKeyFailure::MaxKeysLimit)
        } else if self.keys.contains_key(account) {
            Err(AddKeyFailure::DuplicateKey)
        } else {
            Ok(self.with_key(account, weight))
        }
    }

    /// Changing the weight of a key the account has.
    pub open spec fn update_key(
        self,
        signers: Set<AccountHash>,
        account: AccountHash,
        weight: u8,
    ) -> Result<AccountState, UpdateKeyFailure> {
        if !self.keys.contains_key(account) {
            Err(UpdateKeyFailure::MissingKey)
        } else if !self.can_manage_keys(signers) {
            Err(UpdateKeyFailure::PermissionDenied)
        } else if !self.with_key(account, weight).reaches_thresholds() {
            Err(UpdateKeyFailure::ThresholdViolation)
        } else {
            Ok(self.with_key(account, weight))
        }
    }

    /// Removing a key the account has.
    pub open spec fn remove_key(self, signers: Set<AccountHash>, account: AccountHash) -> Result<
        AccountState,
        RemoveKeyFailure,
    > {
        if !self.keys.contains_key(account) {
            Err(RemoveKeyFailure::MissingKey)
        } else if !self.can_manage_keys(signers) {
            Err(RemoveKeyFailure::PermissionDenied)
        } else if !self.without_key(account).reaches_thresholds() {
            Err(RemoveKeyFailure::ThresholdViolation)
        } else {
            Ok(self.without_key(account))
        }
    }

    /// The refusal of a threshold of zero: the failure named for the
    /// threshold that was to be set.
    pub open spec fn zero_threshold(action: ActionType) -> SetThresholdFailure {
        match action {
            ActionType::Deployment => SetThresholdFailure::DeploymentThreshold,
            ActionType::KeyManagement => SetThresholdFailure::KeyManagementThreshold,
        }
    }

    /// Setting one threshold. Permission comes first; then zero is no
    /// threshold.
    pub open spec fn set_threshold(self, signers: Set<AccountHash>, action: ActionType, value: u8) -> Result<
        AccountState,
        SetThresholdFailure,
    > {
        if !self.can_manage_keys(signers) {
            Err(SetThresholdFailure::PermissionDenied)
        } else if value == 0 {
            Err(AccountState::zero_threshold(action))
        } else if action == ActionType::KeyManagement && self.deployment > value {
            Err(SetThresholdFailure::KeyManagementThreshold)
        } else if action == ActionType::Deployment && value > self.key_management {
            Err(SetThresholdFailure::DeploymentThreshold)
        } else if value > self.total_weight() {
            Err(SetThresholdFailure::InsufficientTotalWeight)
        } else {
            Ok(self.with_threshold(action, value))
        }
    }
}

/// A new key with a weight above zero keeps an account governable.
pub proof fn lemma_add_key_keeps_governable(
    state: AccountState,
    signers: Set<AccountHash>,
    account: AccountHash,
    weight: u8,
)
    requires
        state.governable(),
        weight > 0,
    ensures
        state.add_key(signers, account, weight) matches Ok(next) ==> next.governable()
            && next.total_weight() == state.total_weight() + weight,
{
    if state.add_key(signers, account, weight) is Ok {
        crate::key_set::lemma_total_weight_insert(state.keys, account, weight);
        assert(state.keys.remove(account) =~= state.keys);
    }
}

/// A changed weight above zero keeps an account governable.
pub proof fn lemma_update_key_keeps_governable(
    state: AccountState,
    signers: Set<AccountHash>,
    account: AccountHash,
    weight: u8,
)
    requires
        state.governable(),
        weight > 0,
    ensures
        state.update_key(signers, account, weight) matches Ok(next) ==> next.governable()
            && next.total_weight() + state.keys[account] == state.total_weight() + weight,
{
    if state.update_key(signers, account, weight) is Ok {
        crate::key_set::lemma_total_weight_insert(state.keys, account, weight);
        crate::key_set::lemma_total_weight_remove(state.keys, account);
        assert(state.keys.insert(account, weight).dom() =~= state.keys.dom());
    }
}

/// A removal keeps an account governable.
pub proof fn lemma_remove_key_keeps_governable(
    state: AccountState,
    signers: Set<AccountHash>,
    account: AccountHash,
)
    requires
        state.governable(),
    ensures
        state.remove_key(signers, account) matches Ok(next) ==> next.governable()
            && next.total_weight() + state.keys[account] == state.total_weight(),
{
    if state.remove_key(signers, account) is Ok {
        crate::key_set::lemma_total_weight_remove(state.keys, account);
    }
}

/// A new threshold keeps an account governable.
pub proof fn lemma_action_threshold_keeps_governable(
    state: AccountState,
    signers: Set<AccountHash>,
    action: ActionType,
    value: u8,
)
    requires
        state.governable(),
    ensures
        state.set_threshold(signers, action, value) matches Ok(next) ==> next.governable(),
{
}

/// An account's keys and thresholds. Every value of this type is governable:
/// see [`AccountState::governable`].
#[derive(Debug)]
pub struct Account {
    keys: KeySet,
    deployment: u8,
    key_management: u8,
    max_keys: usize,
}

impl View for Account {
    type V = AccountState;

    closed spec fn view(&self) -> AccountState {
        AccountState {
            keys: self.keys@,
            deployment: self.deployment,
            key_management: self.key_management,
            max_keys: self.max_keys as nat,
        }
    }
}

impl Account {
    #[verifier::type_invariant]
    pub(crate) open spec fn well_formed(self) -> bool {
        self@.governable()
    }

    /// A new account that may hold up to `max_keys` keys: the owner's key
    /// with weight one, and both thresholds at one. There is no such account
    /// with a limit of zero.
    pub fn new(owner: AccountHash, max_keys: usize) -> (account: Option<Account>)
        ensures
            max_keys == 0 <==> account is None,
            account matches Some(a) ==> a@ == AccountState::fresh(owner, max_keys as nat)
                && a@.governable(),
    {
        if max_keys == 0 {
            return None;
        }
        match Weight::new(1) {
            Some(one) => {
                let mut keys = KeySet::new();
                keys.insert(owner, one);
                proof {
                    crate::key_set::lemma_total_weight_insert(Map::<AccountHash, u8>::empty(), owner, 1u8);
                    assert(Map::<AccountHash, u8>::empty().remove(owner) =~= Map::<AccountHash, u8>::empty());
                    assert(total_weight(Map::<AccountHash, u8>::empty()) == 0);
                    assert(keys@.dom() =~= set![owner]);
                }
                Some(Account { keys, deployment: 1, key_management: 1, max_keys })
            },
            None => None,
        }
    }

    /// A second account with the same keys, thresholds and limit.
    pub fn snapshot(&self) -> (copy: Account)
        ensures
            copy@ == self@,
            copy@.governable(),
    {
        proof {
            use_type_invariant(self);
        }
        Account {
            keys: self.keys.snapshot(),
            deployment: self.deployment,
            key_management: self.key_management,
            max_keys: self.max_keys,
        }
    }

    /// The threshold of `action`, which is never zero.
    pub fn action_threshold(&self, action: ActionType) -> (threshold: u8)
        ensures
            self@.governable(),
            threshold == match action {
                ActionType::Deployment => self@.deployment,
                ActionType::KeyManagement => self@.key_management,
            },
            threshold >= 1,
    {
        proof {
            use_type_invariant(self);
        }
        match action {
            ActionType::Deployment => self.deployment,
            ActionType::KeyManagement => self.key_management,
        }
    }

    /// The number of keys the account may hold.
    pub fn max_keys(&self) -> (limit: usize)
        ensures
            self@.governable(),
            limit == self@.max_keys,
    {
        proof {
            use_type_invariant(self);
        }
        self.max_keys
    }

    /// The number of keys the account holds.
    pub fn key_count(&self) -> (count: usize)
        ensures
            self@.governable(),
            count == self@.keys.len(),
    {
        proof {
            use_type_invariant(self);
        }
        self.keys.len()
    }

    /// The weight of the key of `account`, or `None` where the account has
    /// no key here.
    pub fn key_weight(&self, account: &AccountHash) -> (weight: Option<u8>)
        ensures
            self@.governable(),
            match weight {
                Some(w) => self@.keys.contains_key(*account) && self@.keys[*account] == w,
                None => !self@.keys.contains_key(*account),
            },
    {
        proof {
            use_type_invariant(self);
        }
        self.keys.get(account)
    }

    /// The weight all keys raise together.
    pub fn total_weight(&self) -> (weight: u128)
        ensures
            self@.governable(),
            weight == self@.total_weight(),
    {
        proof {
            use_type_invariant(self);
        }
        self.keys.total_weight()
    }

    /// The weight the signers raise. A signer who is named twice counts
    /// once, and one without a key counts nothing.
    pub fn authorization_weight(&self, signers: &Vec<AccountHash>) -> (weight: u128)
        ensures
            self@.governable(),
            weight == self@.authorization_weight(signers@.to_set()),
    {
        proof {
            use_type_invariant(self);
        }
        self.keys.weight_of(signers)
    }

    /// Whether the signers raise the key-management threshold.
    pub fn can_manage_keys_with(&self, signers: &Vec<AccountHash>) -> (allowed: bool)
        ensures
            self@.governable(),
            allowed == self@.can_manage_keys(signers@.to_set()),
    {
        proof {
            use_type_invariant(self);
        }
        self.keys.weight_of(signers) >= self.key_management as u128
    }

    /// Whether the signers raise the deployment threshold.
    pub fn can_deploy_with(&self, signers: &Vec<AccountHash>) -> (allowed: bool)
        ensures
            self@.governable(),
            allowed == self@.can_deploy(signers@.to_set()),
    {
        proof {
            use_type_invariant(self);
        }
        self.keys.weight_of(signers) >= self.deployment as u128
    }

    /// Adds a key for `account`. Refused with `PermissionDenied` where the
    /// signers do not raise the key-management threshold, else with
    /// `MaxKeysLimit` where the account is full, else with `DuplicateKey`
    /// where the account has such a key. A refusal changes nothing.
    pub fn add_associated_key(
        &mut self,
        signers: &Vec<AccountHash>,
        account: AccountHash,
        weight: Weight,
    ) -> (result: Result<(), AddKeyFailure>)
        ensures
            weight.spec_value() > 0,
            match old(self)@.add_key(signers@.to_set(), account, weight.spec_value()) {
                Ok(next) => result is Ok && final(self)@ == next,
                Err(failure) => result == Err::<(), AddKeyFailure>(failure) && final(self)@ == old(
                    self,
                )@,
            },
            final(self)@.governable(),
    {
        proof {
            use_type_invariant(&*self);
        }
        let value: u8 = weight.value();
        if !self.can_manage_keys_with(signers) {
            return Err(AddKeyFailure::PermissionDenied);
        }
        if self.keys.len() >= self.max_keys {
            return Err(AddKeyFailure::MaxKeysLimit);
        }
        if self.keys.get(&account).is_some() {
            return Err(AddKeyFailure::DuplicateKey);
        }
        let mut keys = self.keys.snapshot();
        keys.insert(account, weight);
        proof {
            lemma_add_key_keeps_governable(self@, signers@.to_set(), account, value);
        }
        self.keys = keys;
        Ok(())
    }

    /// Changes the weight of the key of `account`. Refused with `MissingKey`
    /// where the account has no such key, else with `PermissionDenied` where
    /// the signers do not raise the key-management threshold, else with
    /// `ThresholdViolation` where the keys would no longer reach both
    /// thresholds. A refusal changes nothing.
    pub fn update_associated_key(
        &mut self,
        signers: &Vec<AccountHash>,
        account: AccountHash,
        weight: Weight,
    ) -> (result: Result<(), UpdateKeyFailure>)
        ensures
            weight.spec_value() > 0,
            match old(self)@.update_key(signers@.to_set(), account, weight.spec_value()) {
                Ok(next) => result is Ok && final(self)@ == next,
                Err(failure) => result == Err::<(), UpdateKeyFailure>(failure) && final(self)@
                    == old(self)@,
            },
            final(self)@.governable(),
    {
        proof {
            use_type_invariant(&*self);
        }
        let value: u8 = weight.value();
        match self.keys.get(&account) {
            None => Err(UpdateKeyFailure::MissingKey),
            Some(current) => {
                if !self.can_manage_keys_with(signers) {
                    return Err(UpdateKeyFailure::PermissionDenied);
                }
                proof {
                    crate::key_set::lemma_total_weight_insert(self@.keys, account, value);
                    crate::key_set::lemma_total_weight_remove(self@.keys, account);
                }
                let total: u128 = self.keys.total_weight() - current as u128 + value as u128;
                if total < self.deployment as u128 || total < self.key_management as u128 {
                    return Err(UpdateKeyFailure::ThresholdViolation);
                }
                let mut keys = self.keys.snapshot();
                keys.insert(account, weight);
                proof {
                    lemma_update_key_keeps_governable(self@, signers@.to_set(), account, value);
                }
                self.keys = keys;
                Ok(())
            },
        }
    }

    /// Removes the key of `account`. Refused with `MissingKey` where the
    /// account has no such key, else with `PermissionDenied` where the
    /// signers do not raise the key-management threshold, else with
    /// `ThresholdViolation` where the other keys would no longer reach both
    /// thresholds. A refusal changes nothing.
    pub fn remove_associated_key(
        &mut self,
        signers: &Vec<AccountHash>,
        account: AccountHash,
    ) -> (result: Result<(), RemoveKeyFailure>)
        ensures
            match old(self)@.remove_key(signers@.to_set(), account) {
                Ok(next) => result is Ok && final(self)@ == next,
                Err(failure) => result == Err::<(), RemoveKeyFailure>(failure) && final(self)@
                    == old(self)@,
            },
            final(self)@.governable(),
    {
        proof {
            use_type_invariant(&*self);
        }
        match self.keys.get(&account) {
            None => Err(RemoveKeyFailure::MissingKey),
            Some(current) => {
                if !self.can_manage_keys_with(signers) {
                    return Err(RemoveKeyFailure::PermissionDenied);
                }
                proof {
                    crate::key_set::lemma_total_weight_remove(self@.keys, account);
                }
                let total: u128 = self.keys.total_weight() - current as u128;
                if total < self.deployment as u128 || total < self.key_management as u128 {
                    return Err(RemoveKeyFailure::ThresholdViolation);
                }
                let mut keys = self.keys.snapshot();
                keys.remove(&account);
                proof {
                    lemma_remove_key_keeps_governable(self@, signers@.to_set(), account);
                }
                self.keys = keys;
                Ok(())
            },
        }
    }

    /// Sets the threshold of `action` to `value`. Refused with
    /// `PermissionDenied` where the signers do not raise the key-management
    /// threshold; else with `KeyManagementThreshold` or `DeploymentThreshold`
    /// where the deployment threshold would come to stand above the
    /// key-management one; else with `InsufficientTotalWeight` where `value`
    /// exceeds the total weight of the keys. A refusal changes nothing.
    pub fn set_action_threshold(
        &mut self,
        signers: &Vec<AccountHash>,
        action: ActionType,
        value: Weight,
    ) -> (result: Result<(), SetThresholdFailure>)
        ensures
            value.spec_value() > 0,
            match old(self)@.set_threshold(signers@.to_set(), action, value.spec_value()) {
                Ok(next) => result is Ok && final(self)@ == next,
                Err(failure) => result == Err::<(), SetThresholdFailure>(failure) && final(self)@
                    == old(self)@,
            },
            final(self)@.governable(),
    {
        proof {
            use_type_invariant(&*self);
        }
        let threshold: u8 = value.value();
        if !self.can_manage_keys_with(signers) {
            return Err(SetThresholdFailure::PermissionDenied);
        }
        match action {
            ActionType::KeyManagement => {
                if self.deployment > threshold {
                    return Err(SetThresholdFailure::KeyManagementThreshold);
                }
                if threshold as u128 > self.keys.total_weight() {
                    return Err(SetThresholdFailure::InsufficientTotalWeight);
                }
                self.key_management = threshold;
            },
            ActionType::Deployment => {
                if threshold > self.key_management {
                    return Err(SetThresholdFailure::DeploymentThreshold);
                }
                if threshold as u128 > self.keys.total_weight() {
                    return Err(SetThresholdFailure::InsufficientTotalWeight);
                }
                self.deployment = threshold;
            },
        }
        Ok(())
    }
}

} // verus!
