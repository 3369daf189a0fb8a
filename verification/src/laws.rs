//! What holds of the policy edits whatever the account, the signers and the
//! request.

use vstd::prelude::*;
use crate::account::AccountState;
use crate::errors::Error;
use crate::key_set::{lemma_total_weight_insert, lemma_total_weight_remove};
use crate::manager::{
    add_key_result, add_or_update_result, batch, execute_result, key_edits,
    remove_if_exists_result, run_result, set_all_result, set_key_weight_result,
    set_threshold_result, step_result, Api,
};
use crate::steps::{
    add_key_error, set_threshold_error, starts_key_weight, starts_threshold,
    zero_threshold_error, Step,
};
use crate::types::{AccountHash, ActionType, RemoveKeyFailure, UpdateKeyFailure};

verus! {

/// One call of the library by some signers: a single edit, or the
/// replacement of the whole policy.
pub enum Call {
    /// A single edit.
    Edit { signers: Set<AccountHash>, api: Api },
    /// The replacement of the whole policy.
    SetAll {
        signers: Set<AccountHash>,
        deployment_threshold: u8,
        key_management_threshold: u8,
        accounts: Seq<AccountHash>,
        weights: Seq<u8>,
    },
}

/// What a call does.
pub open spec fn call_result(state: AccountState, call: Call) -> Result<AccountState, Error> {
    match call {
        Call::Edit { signers, api } => execute_result(state, signers, api),
        Call::SetAll { signers, deployment_threshold, key_management_threshold, accounts, weights } => {
            set_all_result(
                state,
                signers,
                deployment_threshold,
                key_management_threshold,
                accounts,
                weights,
            )
        },
    }
}

/// The account after a call: changed as asked where the call succeeds, and
/// as it was where it fails.
pub open spec fn after_call(state: AccountState, call: Call) -> AccountState {
    match call_result(state, call) {
        Ok(next) => next,
        Err(_) => state,
    }
}

/// The account after a list of calls, made one after the other.
pub open spec fn after_calls(state: AccountState, calls: Seq<Call>) -> AccountState
    decreases calls.len(),
{
    if calls.len() == 0 {
        state
    } else {
        after_call(after_calls(state, calls.drop_last()), calls.last())
    }
}

/// Setting the weight of a key leaves a governable account governable: the
/// deployment threshold is still at least one and at most the
/// key-management threshold, neither exceeds the total weight of the keys,
/// no key has weight zero, and the keys are no more than allowed.
pub proof fn lemma_set_key_weight_keeps_governable(
    state: AccountState,
    signers: Set<AccountHash>,
    key: AccountHash,
    weight: u8,
)
    requires
        state.governable(),
    ensures
        set_key_weight_result(state, signers, key, weight) matches Ok(next) ==> next.governable(),
{
    if weight == 0 {
        if remove_if_exists_result(state, signers, key) is Ok && state.keys.contains_key(key) {
            lemma_total_weight_remove(state.keys, key);
        }
    } else if add_or_update_result(state, signers, key, weight) is Ok {
        lemma_total_weight_insert(state.keys, key, weight);
        if state.keys.contains_key(key) {
            assert(state.keys.insert(key, weight).dom() =~= state.keys.dom());
        } else {
            assert(state.keys.remove(key) =~= state.keys);
        }
    }
}

/// Setting a threshold leaves a governable account governable.
pub proof fn lemma_set_threshold_keeps_governable(
    state: AccountState,
    signers: Set<AccountHash>,
    action: ActionType,
    value: u8,
)
    requires
        state.governable(),
    ensures
        set_threshold_result(state, signers, action, value) matches Ok(next) ==> next.governable(),
{
}

/// Every edit leaves a governable account governable.
pub proof fn lemma_edit_keeps_governable(state: AccountState, signers: Set<AccountHash>, api: Api)
    requires
        state.governable(),
    ensures
        execute_result(state, signers, api) matches Ok(next) ==> next.governable(),
{
    match api {
        Api::SetKeyWeight(key, weight) => {
            lemma_set_key_weight_keeps_governable(state, signers, key, weight);
        },
        Api::SetDeploymentThreshold(value) => {
            lemma_set_threshold_keeps_governable(state, signers, ActionType::Deployment, value);
        },
        Api::SetKeyManagementThreshold(value) => {
            lemma_set_threshold_keeps_governable(state, signers, ActionType::KeyManagement, value);
        },
    }
}

/// A run of edits on a governable account reaches only governable states.
pub proof fn lemma_run_keeps_governable(
    state: AccountState,
    signers: Set<AccountHash>,
    edits: Seq<Api>,
)
    requires
        state.governable(),
    ensures
        run_result(state, signers, edits) matches Ok(next) ==> next.governable(),
    decreases edits.len(),
{
    if edits.len() > 0 {
        lemma_run_keeps_governable(state, signers, edits.drop_last());
        match run_result(state, signers, edits.drop_last()) {
            Ok(reached) => {
                lemma_edit_keeps_governable(reached, signers, edits.last());
            },
            Err(_) => {},
        }
    }
}

/// Replacing the whole policy leaves a governable account governable.
pub proof fn lemma_set_all_keeps_governable(
    state: AccountState,
    signers: Set<AccountHash>,
    deployment_threshold: u8,
    key_management_threshold: u8,
    accounts: Seq<AccountHash>,
    weights: Seq<u8>,
)
    requires
        state.governable(),
    ensures
        set_all_result(
            state,
            signers,
            deployment_threshold,
            key_management_threshold,
            accounts,
            weights,
        ) matches Ok(next) ==> next.governable(),
{
    lemma_run_keeps_governable(
        state,
        signers,
        batch(deployment_threshold, key_management_threshold, accounts, weights),
    );
}

/// A call, whether it succeeds or fails, leaves a governable account
/// governable.
pub proof fn lemma_call_keeps_governable(state: AccountState, call: Call)
    requires
        state.governable(),
    ensures
        after_call(state, call).governable(),
{
    match call {
        Call::Edit { signers, api } => {
            lemma_edit_keeps_governable(state, signers, api);
        },
        Call::SetAll { signers, deployment_threshold, key_management_threshold, accounts, weights } => {
            lemma_set_all_keeps_governable(
                state,
                signers,
                deployment_threshold,
                key_management_threshold,
                accounts,
                weights,
            );
        },
    }
}

/// Whatever calls are made on a governable account, by whatever signers and
/// in whatever order, the account is governable after each of them.
pub proof fn lemma_governable_after_each_call(state: AccountState, calls: Seq<Call>)
    requires
        state.governable(),
    ensures
        forall|made: int|
            0 <= made <= calls.len() ==> (#[trigger] after_calls(state, calls.take(made))).governable(),
    decreases calls.len(),
{
    assert forall|made: int| 0 <= made <= calls.len() implies (#[trigger] after_calls(
        state,
        calls.take(made),
    )).governable() by {
        if made == calls.len() {
            assert(calls.take(made) =~= calls);
            if calls.len() > 0 {
                lemma_governable_after_each_call(state, calls.drop_last());
                assert(calls.drop_last().take(calls.len() - 1) =~= calls.drop_last());
                lemma_call_keeps_governable(after_calls(state, calls.drop_last()), calls.last());
            }
        } else {
            lemma_governable_after_each_call(state, calls.drop_last());
            assert(calls.drop_last().take(made) =~= calls.take(made));
        }
    }
}

/// Asking for the removal of a key that is not there succeeds and changes
/// nothing, whoever signs.
pub proof fn lemma_removing_an_absent_key_changes_nothing(
    state: AccountState,
    signers: Set<AccountHash>,
    key: AccountHash,
)
    requires
        !state.keys.contains_key(key),
    ensures
        set_key_weight_result(state, signers, key, 0) == Ok::<AccountState, Error>(state),
        after_call(state, Call::Edit { signers, api: Api::SetKeyWeight(key, 0) }) == state,
{
}

/// A successful edit of one key leaves every other key as it was, and both
/// thresholds and the limit too.
pub proof fn lemma_set_key_weight_changes_one_key(
    state: AccountState,
    signers: Set<AccountHash>,
    key: AccountHash,
    weight: u8,
    other: AccountHash,
)
    requires
        other != key,
    ensures
        set_key_weight_result(state, signers, key, weight) matches Ok(next) ==> {
            &&& next.keys.contains_key(other) == state.keys.contains_key(other)
            &&& next.keys[other] == state.keys[other]
            &&& next.deployment == state.deployment
            &&& next.key_management == state.key_management
            &&& next.max_keys == state.max_keys
            &&& weight > 0 ==> next.keys.contains_key(key) && next.keys[key] == weight
            &&& weight == 0 ==> !next.keys.contains_key(key)
        },
{
}

/// Adding or updating a key never ends with `DuplicateKey`: the update is
/// tried first, so a key is added only where there is none.
pub proof fn lemma_duplicate_key_is_never_reported(
    state: AccountState,
    signers: Set<AccountHash>,
    key: AccountHash,
    weight: u8,
)
    ensures
        set_key_weight_result(state, signers, key, weight) != Err::<AccountState, Error>(
            Error::DuplicateKey,
        ),
{
}

/// Signers who do not raise the key-management threshold are refused with
/// `PermissionDenied` whatever threshold and whatever value they ask for,
/// zero too.
pub proof fn lemma_a_threshold_needs_permission(
    state: AccountState,
    signers: Set<AccountHash>,
    action: ActionType,
    value: u8,
)
    requires
        !state.can_manage_keys(signers),
    ensures
        set_threshold_result(state, signers, action, value) == Err::<AccountState, Error>(
            Error::PermissionDenied,
        ),
        execute_result(state, signers, Api::SetDeploymentThreshold(value)) == Err::<
            AccountState,
            Error,
        >(Error::PermissionDenied),
        execute_result(state, signers, Api::SetKeyManagementThreshold(value)) == Err::<
            AccountState,
            Error,
        >(Error::PermissionDenied),
{
}

/// A threshold of zero is always refused: with `PermissionDenied` where
/// the signers lack permission, else with the error named for the
/// threshold, `DeploymentThreshold` or `KeyManagementThreshold`.
pub proof fn lemma_a_threshold_of_zero_is_refused(
    state: AccountState,
    signers: Set<AccountHash>,
    action: ActionType,
)
    ensures
        set_threshold_result(state, signers, action, 0) == if state.can_manage_keys(signers) {
            Err::<AccountState, Error>(zero_threshold_error(action))
        } else {
            Err::<AccountState, Error>(Error::PermissionDenied)
        },
        execute_result(state, signers, Api::SetDeploymentThreshold(0)) is Err,
        execute_result(state, signers, Api::SetKeyManagementThreshold(0)) is Err,
{
}

/// Replacing a policy sets the keys first, then the key-management
/// threshold on the account as the keys have left it, then the deployment
/// threshold on the account as that has left it. A failure at any of the
/// three is the result.
pub proof fn lemma_set_all_sets_keys_then_thresholds(
    state: AccountState,
    signers: Set<AccountHash>,
    deployment_threshold: u8,
    key_management_threshold: u8,
    accounts: Seq<AccountHash>,
    weights: Seq<u8>,
)
    ensures
        set_all_result(
            state,
            signers,
            deployment_threshold,
            key_management_threshold,
            accounts,
            weights,
        ) == match run_result(state, signers, key_edits(accounts, weights)) {
            Ok(keyed) => match set_threshold_result(
                keyed,
                signers,
                ActionType::KeyManagement,
                key_management_threshold,
            ) {
                Ok(managed) => set_threshold_result(
                    managed,
                    signers,
                    ActionType::Deployment,
                    deployment_threshold,
                ),
                Err(error) => Err(error),
            },
            Err(error) => Err(error),
        },
{
    let edits = batch(deployment_threshold, key_management_threshold, accounts, weights);
    let front = edits.drop_last();
    assert(front.drop_last() =~= key_edits(accounts, weights));
    assert(run_result(state, signers, edits) == match run_result(state, signers, front) {
        Ok(reached) => execute_result(reached, signers, edits.last()),
        Err(error) => Err(error),
    });
    assert(run_result(state, signers, front) == match run_result(
        state,
        signers,
        front.drop_last(),
    ) {
        Ok(reached) => execute_result(reached, signers, front.last()),
        Err(error) => Err(error),
    });
}

/// Replacing the policy with a threshold of zero fails, whatever else is
/// asked for.
pub proof fn lemma_set_all_refuses_a_threshold_of_zero(
    state: AccountState,
    signers: Set<AccountHash>,
    deployment_threshold: u8,
    key_management_threshold: u8,
    accounts: Seq<AccountHash>,
    weights: Seq<u8>,
)
    requires
        deployment_threshold == 0 || key_management_threshold == 0,
    ensures
        set_all_result(
            state,
            signers,
            deployment_threshold,
            key_management_threshold,
            accounts,
            weights,
        ) is Err,
{
    lemma_set_all_sets_keys_then_thresholds(
        state,
        signers,
        deployment_threshold,
        key_management_threshold,
        accounts,
        weights,
    );
}

/// Whatever calls are made on a governable account, both thresholds are at
/// least one after each of them.
pub proof fn lemma_thresholds_are_never_zero(state: AccountState, calls: Seq<Call>)
    requires
        state.governable(),
    ensures
        forall|made: int|
            0 <= made <= calls.len() ==> {
                let reached = #[trigger] after_calls(state, calls.take(made));
                1 <= reached.deployment && 1 <= reached.key_management
            },
{
    lemma_governable_after_each_call(state, calls);
}

/// In a governable account signers of whom none has a key may neither
/// manage the keys nor deploy: they raise no weight, and both thresholds
/// are at least one.
pub proof fn lemma_signers_without_a_key_have_no_say(
    state: AccountState,
    signers: Set<AccountHash>,
)
    requires
        state.governable(),
        forall|signer: AccountHash| signers.contains(signer) ==> !state.keys.contains_key(signer),
    ensures
        state.authorization_weight(signers) == 0,
        !state.can_manage_keys(signers),
        !state.can_deploy(signers),
{
    assert(state.keys.restrict(signers).dom() =~= Set::<AccountHash>::empty());
}

/// An edit carried out step by step does what the edit is to do: from the
/// first step of setting a key's weight on it does what setting the weight
/// does, and from the first step of setting a threshold on what setting the
/// threshold does.
pub proof fn lemma_the_steps_make_the_edit(
    state: AccountState,
    signers: Set<AccountHash>,
    step: Step,
    key: AccountHash,
    action: ActionType,
    value: u8,
)
    ensures
        starts_key_weight(step, key, value) ==> step_result(state, signers, step)
            == set_key_weight_result(state, signers, key, value),
        starts_threshold(step, action, value) ==> step_result(state, signers, step)
            == set_threshold_result(state, signers, action, value),
{
}

/// A governable account is not locked out: the owners of its keys, signing
/// together, may manage its keys and deploy in its name.
pub proof fn lemma_all_keys_together_can_manage(state: AccountState)
    requires
        state.governable(),
    ensures
        state.can_manage_keys(state.keys.dom()),
        state.can_deploy(state.keys.dom()),
{
    assert(state.keys.restrict(state.keys.dom()) =~= state.keys);
}

/// No list of calls locks a governable account out: after each of them the
/// owners of the keys that are left, signing together, may still manage the
/// keys.
pub proof fn lemma_never_locked_out(state: AccountState, calls: Seq<Call>)
    requires
        state.governable(),
    ensures
        forall|made: int|
            0 <= made <= calls.len() ==> {
                let reached = #[trigger] after_calls(state, calls.take(made));
                reached.can_manage_keys(reached.keys.dom())
            },
{
    lemma_governable_after_each_call(state, calls);
    assert forall|made: int| 0 <= made <= calls.len() implies {
        let reached = #[trigger] after_calls(state, calls.take(made));
        reached.can_manage_keys(reached.keys.dom())
    } by {
        lemma_all_keys_together_can_manage(after_calls(state, calls.take(made)));
    }
}

/// Signers who may manage the keys of a governable account may deploy in
/// its name: a key-management action is a deployment too.
pub proof fn lemma_key_managers_can_deploy(state: AccountState, signers: Set<AccountHash>)
    requires
        state.governable(),
        state.can_manage_keys(signers),
    ensures
        state.can_deploy(signers),
{
}

/// Adding a key does what the store does, each refusal of the store
/// reported under the error of the same name.
pub proof fn lemma_add_key_follows_the_store(
    state: AccountState,
    signers: Set<AccountHash>,
    key: AccountHash,
    weight: u8,
)
    ensures
        add_key_result(state, signers, key, weight) == match state.add_key(signers, key, weight) {
            Ok(next) => Ok::<AccountState, Error>(next),
            Err(failure) => Err(add_key_error(failure)),
        },
{
}

/// Giving a key a weight above zero asks the store for an update first and
/// for an addition only where the store misses the key; any other refusal
/// of the update is reported under the error of the same name.
pub proof fn lemma_add_or_update_tries_the_update_first(
    state: AccountState,
    signers: Set<AccountHash>,
    key: AccountHash,
    weight: u8,
)
    ensures
        add_or_update_result(state, signers, key, weight) == match state.update_key(
            signers,
            key,
            weight,
        ) {
            Ok(next) => Ok::<AccountState, Error>(next),
            Err(UpdateKeyFailure::MissingKey) => add_key_result(state, signers, key, weight),
            Err(UpdateKeyFailure::PermissionDenied) => Err(Error::PermissionDenied),
            Err(UpdateKeyFailure::ThresholdViolation) => Err(Error::ThresholdViolation),
        },
{
}

/// Removing a key does what the store does, but that a missing key is a
/// success that changes nothing.
pub proof fn lemma_remove_if_exists_follows_the_store(
    state: AccountState,
    signers: Set<AccountHash>,
    key: AccountHash,
)
    ensures
        remove_if_exists_result(state, signers, key) == match state.remove_key(signers, key) {
            Ok(next) => Ok::<AccountState, Error>(next),
            Err(RemoveKeyFailure::MissingKey) => Ok(state),
            Err(RemoveKeyFailure::PermissionDenied) => Err(Error::PermissionDenied),
            Err(RemoveKeyFailure::ThresholdViolation) => Err(Error::ThresholdViolation),
        },
{
}

/// Setting a threshold does what the store does, each refusal of the store
/// reported under the error of the same name.
pub proof fn lemma_set_threshold_follows_the_store(
    state: AccountState,
    signers: Set<AccountHash>,
    action: ActionType,
    value: u8,
)
    ensures
        set_threshold_result(state, signers, action, value) == match state.set_threshold(
            signers,
            action,
            value,
        ) {
            Ok(next) => Ok::<AccountState, Error>(next),
            Err(failure) => Err(set_threshold_error(failure)),
        },
{
}

/// A successful replacement of the policy leaves both thresholds as asked.
pub proof fn lemma_set_all_sets_both_thresholds(
    state: AccountState,
    signers: Set<AccountHash>,
    deployment_threshold: u8,
    key_management_threshold: u8,
    accounts: Seq<AccountHash>,
    weights: Seq<u8>,
)
    ensures
        set_all_result(
            state,
            signers,
            deployment_threshold,
            key_management_threshold,
            accounts,
            weights,
        ) matches Ok(next) ==> next.deployment == deployment_threshold && next.key_management
            == key_management_threshold,
{
    lemma_set_all_sets_keys_then_thresholds(
        state,
        signers,
        deployment_threshold,
        key_management_threshold,
        accounts,
        weights,
    );
}

} // verus!
