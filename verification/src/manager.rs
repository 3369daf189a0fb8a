//! The policy edits: setting the weight of one key, setting one threshold,
//! and replacing the whole policy at once.

use vstd::prelude::*;
use crate::account::{Account, AccountState};
use crate::errors::Error;
use crate::steps::{
    add_key_outcome, first_step, key_weight_step, remove_key_outcome, set_threshold_outcome,
    threshold_step, update_key_outcome, zero_threshold_error, zero_threshold_outcome, Step,
};
use crate::types::{AccountHash, ActionType, Weight};

verus! {

/// One edit of an account's policy.
#[derive(Clone, Copy, Debug, PartialEq, Eq)]
pub enum Api {
    /// Set the weight of the key of an account; zero removes the key.
    SetKeyWeight(AccountHash, u8),
    /// Set the deployment threshold.
    SetDeploymentThreshold(u8),
    /// Set the key-management threshold.
    SetKeyManagementThreshold(u8),
}

/// How an edit that returned `result` has left the account, where
/// `expected` is what the edit is to do: on success the account is in the
/// expected state, and on failure the error is the expected one and the
/// account is as it was.
pub open spec fn edit_outcome(
    before: AccountState,
    after: AccountState,
    result: Result<(), Error>,
    expected: Result<AccountState, Error>,
) -> bool {
    match expected {
        Ok(next) => result is Ok && after == next,
        Err(error) => result == Err::<(), Error>(error) && after == before,
    }
}

/// Adding a key for an account that has none: refused without permission,
/// else where the account is full, else where the key is there already.
pub open spec fn add_key_result(
    state: AccountState,
    signers: Set<AccountHash>,
    key: AccountHash,
    weight: u8,
) -> Result<AccountState, Error> {
    if !state.can_manage_keys(signers) {
        Err(Error::PermissionDenied)
    } else if state.keys.len() >= state.max_keys {
        Err(Error::MaxKeysLimit)
    } else if state.keys.contains_key(key) {
        Err(Error::DuplicateKey)
    } else {
        Ok(state.with_key(key, weight))
    }
}

/// Giving a key a weight above zero: refused without permission; a key that
/// is there gets the weight unless the keys would then miss a threshold; a
/// key that is not is added unless the account is full.
pub open spec fn add_or_update_result(
    state: AccountState,
    signers: Set<AccountHash>,
    key: AccountHash,
    weight: u8,
) -> Result<AccountState, Error> {
    if !state.can_manage_keys(signers) {
        Err(Error::PermissionDenied)
    } else if state.keys.contains_key(key) {
        if state.with_key(key, weight).reaches_thresholds() {
            Ok(state.with_key(key, weight))
        } else {
            Err(Error::ThresholdViolation)
        }
    } else if state.keys.len() >= state.max_keys {
        Err(Error::MaxKeysLimit)
    } else {
        Ok(state.with_key(key, weight))
    }
}

/// Removing a key: nothing happens where the key is not there; else it is
/// refused without permission, and where the other keys would miss a
/// threshold.
pub open spec fn remove_if_exists_result(
    state: AccountState,
    signers: Set<AccountHash>,
    key: AccountHash,
) -> Result<AccountState, Error> {
    if !state.keys.contains_key(key) {
        Ok(state)
    } else if !state.can_manage_keys(signers) {
        Err(Error::PermissionDenied)
    } else if !state.without_key(key).reaches_thresholds() {
        Err(Error::ThresholdViolation)
    } else {
        Ok(state.without_key(key))
    }
}

/// Setting the weight of a key: zero asks for its removal, any other weight
/// for its addition or update.
pub open spec fn set_key_weight_result(
    state: AccountState,
    signers: Set<AccountHash>,
    key: AccountHash,
    weight: u8,
) -> Result<AccountState, Error> {
    if weight == 0 {
        remove_if_exists_result(state, signers, key)
    } else {
        add_or_update_result(state, signers, key, weight)
    }
}

/// Setting a threshold: refused without permission, whatever the value;
/// else a value of zero is refused under the name of the threshold being
/// set; else it is refused where the deployment threshold would come to
/// stand above the key-management one, under the name of the threshold
/// being set; else where the value exceeds the total weight of the keys.
pub open spec fn set_threshold_result(
    state: AccountState,
    signers: Set<AccountHash>,
    action: ActionType,
    value: u8,
) -> Result<AccountState, Error> {
    if !state.can_manage_keys(signers) {
        Err(Error::PermissionDenied)
    } else if value == 0 {
        Err(zero_threshold_error(action))
    } else if action == ActionType::KeyManagement && state.deployment > value {
        Err(Error::KeyManagementThreshold)
    } else if action == ActionType::Deployment && value > state.key_management {
        Err(Error::DeploymentThreshold)
    } else if value > state.total_weight() {
        Err(Error::InsufficientTotalWeight)
    } else {
        Ok(state.with_threshold(action, value))
    }
}

/// What one edit does.
pub open spec fn execute_result(state: AccountState, signers: Set<AccountHash>, api: Api) -> Result<
    AccountState,
    Error,
> {
    match api {
        Api::SetKeyWeight(key, weight) => set_key_weight_result(state, signers, key, weight),
        Api::SetDeploymentThreshold(value) => set_threshold_result(
            state,
            signers,
            ActionType::Deployment,
            value,
        ),
        Api::SetKeyManagementThreshold(value) => set_threshold_result(
            state,
            signers,
            ActionType::KeyManagement,
            value,
        ),
    }
}

/// What a list of edits does, one after the other, each on the state the
/// one before has left. The first error ends the run and is its result.
pub open spec fn run_result(state: AccountState, signers: Set<AccountHash>, edits: Seq<Api>) -> Result<
    AccountState,
    Error,
>
    decreases edits.len(),
{
    if edits.len() == 0 {
        Ok(state)
    } else {
        match run_result(state, signers, edits.drop_last()) {
            Ok(reached) => execute_result(reached, signers, edits.last()),
            Err(error) => Err(error),
        }
    }
}

/// The key edits of a replacement of the policy: each account with the
/// weight at the same place, as far as both lists go.
pub open spec fn key_edits(accounts: Seq<AccountHash>, weights: Seq<u8>) -> Seq<Api> {
    Seq::new(
        if accounts.len() <= weights.len() {
            accounts.len()
        } else {
            weights.len()
        },
        |i: int| Api::SetKeyWeight(accounts[i], weights[i]),
    )
}

/// The edits that replace a whole policy, in the order in which they are
/// made: the key edits; then the key-management threshold; then the
/// deployment threshold.
pub open spec fn batch(
    deployment_threshold: u8,
    key_management_threshold: u8,
    accounts: Seq<AccountHash>,
    weights: Seq<u8>,
) -> Seq<Api> {
    key_edits(accounts, weights).push(
        Api::SetKeyManagementThreshold(key_management_threshold),
    ).push(Api::SetDeploymentThreshold(deployment_threshold))
}

/// What replacing the whole policy does.
pub open spec fn set_all_result(
    state: AccountState,
    signers: Set<AccountHash>,
    deployment_threshold: u8,
    key_management_threshold: u8,
    accounts: Seq<AccountHash>,
    weights: Seq<u8>,
) -> Result<AccountState, Error> {
    run_result(
        state,
        signers,
        batch(deployment_threshold, key_management_threshold, accounts, weights),
    )
}

/// A run that has failed on some of its first edits fails with the same
/// error however many edits follow.
pub proof fn lemma_run_error_is_final(
    state: AccountState,
    signers: Set<AccountHash>,
    edits: Seq<Api>,
    done: int,
)
    requires
        0 <= done <= edits.len(),
        run_result(state, signers, edits.take(done)) is Err,
    ensures
        run_result(state, signers, edits) == run_result(state, signers, edits.take(done)),
    decreases edits.len(),
{
    if done == edits.len() {
        assert(edits.take(done) =~= edits);
    } else {
        assert(edits.drop_last().take(done) =~= edits.take(done));
        lemma_run_error_is_final(state, signers, edits.drop_last(), done);
    }
}

/// What an edit does from one of its steps on.
pub open spec fn step_result(state: AccountState, signers: Set<AccountHash>, step: Step) -> Result<
    AccountState,
    Error,
> {
    match step {
        Step::Finished(result) => match result {
            Ok(()) => Ok(state),
            Err(error) => Err(error),
        },
        Step::UpdateKey(key, weight) => add_or_update_result(
            state,
            signers,
            key,
            weight.spec_value(),
        ),
        Step::AddKey(key, weight) => add_key_result(state, signers, key, weight.spec_value()),
        Step::RemoveKey(key) => remove_if_exists_result(state, signers, key),
        Step::SetThreshold(action, value) => set_threshold_result(
            state,
            signers,
            action,
            value.spec_value(),
        ),
        Step::ZeroThreshold(action) => set_threshold_result(state, signers, action, 0),
    }
}

/// Carries an edit out from `step` on: makes each request of the account,
/// as the signers', and goes by the answer to the next step, until the edit
/// has ended.
pub fn carry_out(account: &mut Account, signers: &Vec<AccountHash>, step: Step) -> (result: Result<
    (),
    Error,
>)
    ensures
        edit_outcome(
            old(account)@,
            final(account)@,
            result,
            step_result(old(account)@, signers@.to_set(), step),
        ),
        final(account)@.governable(),
{
    proof {
        use_type_invariant(&*account);
    }
    let ghost expected = step_result(account@, signers@.to_set(), step);
    let mut current = step;
    loop
        invariant
            account@.governable(),
            expected == step_result(old(account)@, signers@.to_set(), step),
            match current {
                Step::Finished(result) => edit_outcome(old(account)@, account@, result, expected),
                _ => account@ == old(account)@ && step_result(
                    account@,
                    signers@.to_set(),
                    current,
                ) == expected,
            },
        decreases current.requests_left(),
    {
        current =
        match current {
            Step::Finished(result) => {
                return result;
            },
            Step::UpdateKey(key, weight) => update_key_outcome(
                key,
                weight,
                account.update_associated_key(signers, key, weight),
            ),
            Step::AddKey(key, weight) => Step::Finished(
                add_key_outcome(account.add_associated_key(signers, key, weight)),
            ),
            Step::RemoveKey(key) => Step::Finished(
                remove_key_outcome(account.remove_associated_key(signers, key)),
            ),
            Step::SetThreshold(action, value) => Step::Finished(
                set_threshold_outcome(account.set_action_threshold(signers, action, value)),
            ),
            Step::ZeroThreshold(action) => Step::Finished(
                zero_threshold_outcome(action, account.can_manage_keys_with(signers)),
            ),
        };
    }
}

/// Adds a key for an account that has none.
pub fn add_key(
    account: &mut Account,
    signers: &Vec<AccountHash>,
    key: AccountHash,
    weight: Weight,
) -> (result: Result<(), Error>)
    ensures
        edit_outcome(
            old(account)@,
            final(account)@,
            result,
            add_key_result(old(account)@, signers@.to_set(), key, weight.spec_value()),
        ),
        final(account)@.governable(),
{
    carry_out(account, signers, Step::AddKey(key, weight))
}

/// Gives the key of an account a weight above zero: the key is updated
/// where the account has it and added where it has not.
pub fn add_or_update_key(
    account: &mut Account,
    signers: &Vec<AccountHash>,
    key: AccountHash,
    weight: Weight,
) -> (result: Result<(), Error>)
    ensures
        edit_outcome(
            old(account)@,
            final(account)@,
            result,
            add_or_update_result(old(account)@, signers@.to_set(), key, weight.spec_value()),
        ),
        final(account)@.governable(),
        result != Err::<(), Error>(Error::DuplicateKey),
{
    carry_out(account, signers, Step::UpdateKey(key, weight))
}

/// Removes the key of an account, and succeeds where there is none.
pub fn remove_key_if_exists(
    account: &mut Account,
    signers: &Vec<AccountHash>,
    key: AccountHash,
) -> (result: Result<(), Error>)
    ensures
        edit_outcome(
            old(account)@,
            final(account)@,
            result,
            remove_if_exists_result(old(account)@, signers@.to_set(), key),
        ),
        final(account)@.governable(),
{
    carry_out(account, signers, Step::RemoveKey(key))
}

/// Sets the threshold of one class of action. Signers who do not raise the
/// key-management threshold are refused with `PermissionDenied`, whatever
/// they ask for. A threshold is at least one: zero is refused too, and the
/// account is then as it was.
pub fn set_threshold(
    account: &mut Account,
    signers: &Vec<AccountHash>,
    permission_level: ActionType,
    threshold: u8,
) -> (result: Result<(), Error>)
    ensures
        edit_outcome(
            old(account)@,
            final(account)@,
            result,
            set_threshold_result(old(account)@, signers@.to_set(), permission_level, threshold),
        ),
        final(account)@.governable(),
        !old(account)@.can_manage_keys(signers@.to_set()) ==> result == Err::<(), Error>(
            Error::PermissionDenied,
        ) && final(account)@ == old(account)@,
        threshold == 0 ==> result is Err && final(account)@ == old(account)@,
        result is Ok ==> 1 <= final(account)@.deployment && 1 <= final(account)@.key_management,
{
    carry_out(account, signers, threshold_step(permission_level, threshold))
}

/// Sets the weight of the key of an account: zero removes the key, any
/// other weight adds or updates it.
pub fn update_key_weight(
    account: &mut Account,
    signers: &Vec<AccountHash>,
    key: AccountHash,
    weight: u8,
) -> (result: Result<(), Error>)
    ensures
        edit_outcome(
            old(account)@,
            final(account)@,
            result,
            set_key_weight_result(old(account)@, signers@.to_set(), key, weight),
        ),
        final(account)@.governable(),
{
    carry_out(account, signers, key_weight_step(key, weight))
}

/// Sets the weight of the key of `key`'s owner, as the signers' request.
/// With weight zero the key is removed, and a key that is not there is no
/// error. With any other weight the key is updated or, where the account
/// has none, added. On success exactly this key has changed; on failure
/// nothing has.
pub fn set_key_weight(
    account: &mut Account,
    signers: &Vec<AccountHash>,
    key: AccountHash,
    weight: u8,
) -> (result: Result<(), Error>)
    ensures
        edit_outcome(
            old(account)@,
            final(account)@,
            result,
            set_key_weight_result(old(account)@, signers@.to_set(), key, weight),
        ),
        final(account)@.governable(),
        weight == 0 && !old(account)@.keys.contains_key(key) ==> result is Ok && final(account)@
            == old(account)@,
{
    update_key_weight(account, signers, key, weight)
}

/// Sets the deployment threshold, as the signers' request. Signers without
/// permission are refused with `PermissionDenied`. The threshold is at
/// least one: zero, asked with permission, is refused with
/// `DeploymentThreshold`.
pub fn set_deployment_threshold(
    account: &mut Account,
    signers: &Vec<AccountHash>,
    weight: u8,
) -> (result: Result<(), Error>)
    ensures
        edit_outcome(
            old(account)@,
            final(account)@,
            result,
            set_threshold_result(old(account)@, signers@.to_set(), ActionType::Deployment, weight),
        ),
        final(account)@.governable(),
        !old(account)@.can_manage_keys(signers@.to_set()) ==> result == Err::<(), Error>(
            Error::PermissionDenied,
        ) && final(account)@ == old(account)@,
        weight == 0 && old(account)@.can_manage_keys(signers@.to_set()) ==> result == Err::<
            (),
            Error,
        >(Error::DeploymentThreshold) && final(account)@ == old(account)@,
        result is Ok ==> 1 <= final(account)@.deployment && 1 <= final(account)@.key_management,
{
    set_threshold(account, signers, ActionType::Deployment, weight)
}

/// Sets the key-management threshold, as the signers' request. Signers
/// without permission are refused with `PermissionDenied`. The threshold is
/// at least one: zero, asked with permission, is refused with
/// `KeyManagementThreshold`.
pub fn set_key_management_threshold(
    account: &mut Account,
    signers: &Vec<AccountHash>,
    weight: u8,
) -> (result: Result<(), Error>)
    ensures
        edit_outcome(
            old(account)@,
            final(account)@,
            result,
            set_threshold_result(
                old(account)@,
                signers@.to_set(),
                ActionType::KeyManagement,
                weight,
            ),
        ),
        final(account)@.governable(),
        !old(account)@.can_manage_keys(signers@.to_set()) ==> result == Err::<(), Error>(
            Error::PermissionDenied,
        ) && final(account)@ == old(account)@,
        weight == 0 && old(account)@.can_manage_keys(signers@.to_set()) ==> result == Err::<
            (),
            Error,
        >(Error::KeyManagementThreshold) && final(account)@ == old(account)@,
        result is Ok ==> 1 <= final(account)@.deployment && 1 <= final(account)@.key_management,
{
    set_threshold(account, signers, ActionType::KeyManagement, weight)
}

/// Makes one edit, as the signers' request.
pub fn execute(account: &mut Account, signers: &Vec<AccountHash>, api: Api) -> (result: Result<
    (),
    Error,
>)
    ensures
        edit_outcome(
            old(account)@,
            final(account)@,
            result,
            execute_result(old(account)@, signers@.to_set(), api),
        ),
        final(account)@.governable(),
{
    carry_out(account, signers, first_step(api))
}

/// The edits that replace a whole policy, in the order in which they are to
/// be made.
pub fn batch_edits(
    deployment_threshold: u8,
    key_management_threshold: u8,
    accounts: &Vec<AccountHash>,
    weights: &Vec<u8>,
) -> (edits: Vec<Api>)
    ensures
        edits@ == batch(deployment_threshold, key_management_threshold, accounts@, weights@),
{
    let pairs: usize = if accounts.len() <= weights.len() {
        accounts.len()
    } else {
        weights.len()
    };
    let mut edits: Vec<Api> = Vec::new();
    let mut i: usize = 0;
    while i < pairs
        invariant
            i <= pairs,
            pairs <= accounts.len(),
            pairs <= weights.len(),
            edits@ == Seq::new(i as nat, |k: int| Api::SetKeyWeight(accounts@[k], weights@[k])),
        decreases pairs - i,
    {
        edits.push(Api::SetKeyWeight(accounts[i], weights[i]));
        assert(edits@ =~= Seq::new((i + 1) as nat, |k: int| Api::SetKeyWeight(accounts@[k], weights@[k])));
        i += 1;
    }
    edits.push(Api::SetKeyManagementThreshold(key_management_threshold));
    edits.push(Api::SetDeploymentThreshold(deployment_threshold));
    edits
}

/// Replaces the whole policy, as the signers' request: sets the weight of
/// each account's key in the order given, then the key-management
/// threshold, then the deployment threshold. Where the two lists differ in
/// length, what the longer one has more is left aside. The first edit that
/// fails ends the call with its error, and the account is then as it was
/// before the call. A threshold of zero is such a failure.
pub fn set_all(
    account: &mut Account,
    signers: &Vec<AccountHash>,
    deployment_threshold: u8,
    key_management_threshold: u8,
    accounts: &Vec<AccountHash>,
    weights: &Vec<u8>,
) -> (result: Result<(), Error>)
    ensures
        edit_outcome(
            old(account)@,
            final(account)@,
            result,
            set_all_result(
                old(account)@,
                signers@.to_set(),
                deployment_threshold,
                key_management_threshold,
                accounts@,
                weights@,
            ),
        ),
        final(account)@.governable(),
        result is Err ==> final(account)@ == old(account)@,
        deployment_threshold == 0 || key_management_threshold == 0 ==> result is Err,
{
    proof {
        if deployment_threshold == 0 || key_management_threshold == 0 {
            crate::laws::lemma_set_all_refuses_a_threshold_of_zero(
                account@,
                signers@.to_set(),
                deployment_threshold,
                key_management_threshold,
                accounts@,
                weights@,
            );
        }
    }
    let edits = batch_edits(deployment_threshold, key_management_threshold, accounts, weights);
    let mut work = account.snapshot();
    let mut i: usize = 0;
    while i < edits.len()
        invariant
            i <= edits.len(),
            account@ == old(account)@,
            account@.governable(),
            work@.governable(),
            edits@ == batch(deployment_threshold, key_management_threshold, accounts@, weights@),
            run_result(account@, signers@.to_set(), edits@.take(i as int)) == Ok::<
                AccountState,
                Error,
            >(work@),
        decreases edits.len() - i,
    {
        assert(edits@.take(i + 1).drop_last() =~= edits@.take(i as int));
        match execute(&mut work, signers, edits[i]) {
            Ok(()) => {},
            Err(error) => {
                proof {
                    lemma_run_error_is_final(account@, signers@.to_set(), edits@, i + 1);
                }
                return Err(error);
            },
        }
        i += 1;
    }
    assert(edits@.take(i as int) =~= edits@);
    *account = work;
    Ok(())
}

} // verus!
