//! The steps of a policy edit: what to ask of the store first, and what
//! each answer of the store means, the error to report or the request to
//! make next. Whoever holds the store makes the requests; every decision
//! between them is made here.

use vstd::prelude::*;
use crate::errors::Error;
use crate::manager::Api;
use crate::types::{
    AccountHash, ActionType, AddKeyFailure, RemoveKeyFailure, SetThresholdFailure,
    UpdateKeyFailure, Weight,
};

verus! {

/// Where a policy edit stands: ended, or waiting for one request to be made
/// of the store. The store is only ever asked for weights and thresholds
/// above zero.
#[derive(Clone, Copy, Debug, PartialEq, Eq)]
pub enum Step {
    /// The edit has ended, with this result.
    Finished(Result<(), Error>),
    /// The store is to change the weight of a key it has.
    UpdateKey(AccountHash, Weight),
    /// The store is to add a key it has not.
    AddKey(AccountHash, Weight),
    /// The store is to remove a key.
    RemoveKey(AccountHash),
    /// The store is to set a threshold.
    SetThreshold(ActionType, Weight),
    /// A threshold of zero was asked for, which the store is not to set:
    /// the store is to say whether the signers may manage its keys.
    ZeroThreshold(ActionType),
}

impl Step {
    /// The most requests that an edit at this step still makes.
    pub open spec fn requests_left(self) -> nat {
        match self {
            Step::Finished(_) => 0,
            Step::UpdateKey(_, _) => 2,
            Step::AddKey(_, _) => 1,
            Step::RemoveKey(_) => 1,
            Step::SetThreshold(_, _) => 1,
            Step::ZeroThreshold(_) => 1,
        }
    }
}

/// The error reported for each refusal to add a key.
pub open spec fn add_key_error(failure: AddKeyFailure) -> Error {
    match failure {
        AddKeyFailure::MaxKeysLimit => Error::MaxKeysLimit,
        AddKeyFailure::DuplicateKey => Error::DuplicateKey,
        AddKeyFailure::PermissionDenied => Error::PermissionDenied,
    }
}

/// The error reported for each refusal to set a threshold.
pub open spec fn set_threshold_error(failure: SetThresholdFailure) -> Error {
    match failure {
        SetThresholdFailure::KeyManagementThreshold => Error::KeyManagementThreshold,
        SetThresholdFailure::DeploymentThreshold => Error::DeploymentThreshold,
        SetThresholdFailure::PermissionDenied => Error::PermissionDenied,
        SetThresholdFailure::InsufficientTotalWeight => Error::InsufficientTotalWeight,
    }
}

/// The error reported for a threshold of zero that signers with
/// permission ask for: the one named for the threshold that was to be set.
pub open spec fn zero_threshold_error(action: ActionType) -> Error {
    match action {
        ActionType::Deployment => Error::DeploymentThreshold,
        ActionType::KeyManagement => Error::KeyManagementThreshold,
    }
}

/// Whether `step` is the first step of setting the weight of a key: the
/// removal of the key for zero, the update of the key to that weight for
/// any other.
pub open spec fn starts_key_weight(step: Step, key: AccountHash, weight: u8) -> bool {
    if weight == 0 {
        step == Step::RemoveKey(key)
    } else {
        step matches Step::UpdateKey(asked, value) && asked == key && value.spec_value() == weight
    }
}

/// Whether `step` is the first step of setting a threshold: the question
/// of permission for zero, which is no threshold, and the request to set
/// the threshold to that value for any other.
pub open spec fn starts_threshold(step: Step, action: ActionType, threshold: u8) -> bool {
    if threshold == 0 {
        step == Step::ZeroThreshold(action)
    } else {
        step matches Step::SetThreshold(asked, value) && asked == action && value.spec_value()
            == threshold
    }
}

/// The first step of setting the weight of a key: zero asks for the key's
/// removal, any other weight for an update.
pub fn key_weight_step(key: AccountHash, weight: u8) -> (step: Step)
    ensures
        starts_key_weight(step, key, weight),
{
    match Weight::new(weight) {
        None => Step::RemoveKey(key),
        Some(value) => Step::UpdateKey(key, value),
    }
}

/// The first step of setting a threshold. Zero is no threshold: the store
/// is not asked to set it, only whether the signers have permission.
pub fn threshold_step(permission_level: ActionType, threshold: u8) -> (step: Step)
    ensures
        starts_threshold(step, permission_level, threshold),
{
    match Weight::new(threshold) {
        None => Step::ZeroThreshold(permission_level),
        Some(value) => Step::SetThreshold(permission_level, value),
    }
}

/// The first step of an edit.
pub fn first_step(api: Api) -> (step: Step)
    ensures
        match api {
            Api::SetKeyWeight(key, weight) => starts_key_weight(step, key, weight),
            Api::SetDeploymentThreshold(threshold) => starts_threshold(
                step,
                ActionType::Deployment,
                threshold,
            ),
            Api::SetKeyManagementThreshold(threshold) => starts_threshold(
                step,
                ActionType::KeyManagement,
                threshold,
            ),
        },
{
    match api {
        Api::SetKeyWeight(key, weight) => key_weight_step(key, weight),
        Api::SetDeploymentThreshold(threshold) => threshold_step(ActionType::Deployment, threshold),
        Api::SetKeyManagementThreshold(threshold) => threshold_step(
            ActionType::KeyManagement,
            threshold,
        ),
    }
}

/// The result of asking for a threshold of zero, from whether the signers
/// may manage the keys: without permission the request is refused as any
/// other of theirs, with `PermissionDenied`; with permission it is refused
/// with the error named for the threshold.
pub fn zero_threshold_outcome(permission_level: ActionType, may_manage_keys: bool) -> (result:
    Result<(), Error>)
    ensures
        result == if may_manage_keys {
            Err::<(), Error>(zero_threshold_error(permission_level))
        } else {
            Err::<(), Error>(Error::PermissionDenied)
        },
{
    if !may_manage_keys {
        Err(Error::PermissionDenied)
    } else {
        match permission_level {
            ActionType::Deployment => Err(Error::DeploymentThreshold),
            ActionType::KeyManagement => Err(Error::KeyManagementThreshold),
        }
    }
}

/// The result of adding a key, from the store's answer: each refusal is
/// reported under the error of the same name.
pub fn add_key_outcome(answer: Result<(), AddKeyFailure>) -> (result: Result<(), Error>)
    ensures
        result == match answer {
            Ok(()) => Ok::<(), Error>(()),
            Err(failure) => Err(add_key_error(failure)),
        },
{
    match answer {
        Ok(()) => Ok(()),
        Err(AddKeyFailure::MaxKeysLimit) => Err(Error::MaxKeysLimit),
        Err(AddKeyFailure::DuplicateKey) => Err(Error::DuplicateKey),
        Err(AddKeyFailure::PermissionDenied) => Err(Error::PermissionDenied),
    }
}

/// What follows the store's answer to the update of `key` to `weight`: a
/// missing key is no error but the cue to add the key with that weight;
/// every other answer ends the edit.
pub fn update_key_outcome(key: AccountHash, weight: Weight, answer: Result<(), UpdateKeyFailure>) -> (step:
    Step)
    ensures
        step == match answer {
            Ok(()) => Step::Finished(Ok(())),
            Err(UpdateKeyFailure::MissingKey) => Step::AddKey(key, weight),
            Err(UpdateKeyFailure::PermissionDenied) => Step::Finished(Err(Error::PermissionDenied)),
            Err(UpdateKeyFailure::ThresholdViolation) => Step::Finished(
                Err(Error::ThresholdViolation),
            ),
        },
        step.requests_left() <= 1,
{
    match answer {
        Ok(()) => Step::Finished(Ok(())),
        Err(UpdateKeyFailure::MissingKey) => Step::AddKey(key, weight),
        Err(UpdateKeyFailure::PermissionDenied) => Step::Finished(Err(Error::PermissionDenied)),
        Err(UpdateKeyFailure::ThresholdViolation) => Step::Finished(Err(Error::ThresholdViolation)),
    }
}

/// The result of removing a key, from the store's answer: a missing key is
/// a success, since there is nothing left to remove.
pub fn remove_key_outcome(answer: Result<(), RemoveKeyFailure>) -> (result: Result<(), Error>)
    ensures
        result == match answer {
            Ok(()) => Ok::<(), Error>(()),
            Err(RemoveKeyFailure::MissingKey) => Ok(()),
            Err(RemoveKeyFailure::PermissionDenied) => Err(Error::PermissionDenied),
            Err(RemoveKeyFailure::ThresholdViolation) => Err(Error::ThresholdViolation),
        },
{
    match answer {
        Ok(()) => Ok(()),
        Err(RemoveKeyFailure::MissingKey) => Ok(()),
        Err(RemoveKeyFailure::PermissionDenied) => Err(Error::PermissionDenied),
        Err(RemoveKeyFailure::ThresholdViolation) => Err(Error::ThresholdViolation),
    }
}

/// The result of setting a threshold, from the store's answer: each refusal
/// is reported under the error of the same name.
pub fn set_threshold_outcome(answer: Result<(), SetThresholdFailure>) -> (result: Result<(), Error>)
    ensures
        result == match answer {
            Ok(()) => Ok::<(), Error>(()),
            Err(failure) => Err(set_threshold_error(failure)),
        },
{
    match answer {
        Ok(()) => Ok(()),
        Err(SetThresholdFailure::KeyManagementThreshold) => Err(Error::KeyManagementThreshold),
        Err(SetThresholdFailure::DeploymentThreshold) => Err(Error::DeploymentThreshold),
        Err(SetThresholdFailure::PermissionDenied) => Err(Error::PermissionDenied),
        Err(SetThresholdFailure::InsufficientTotalWeight) => Err(Error::InsufficientTotalWeight),
    }
}

} // verus!
