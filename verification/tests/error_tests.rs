use casper_types::ApiError;
use keys_manager::steps::{
    add_key_outcome, first_step, key_weight_step, remove_key_outcome, set_threshold_outcome,
    threshold_step, update_key_outcome, zero_threshold_outcome, Step,
};
use keys_manager::{
    AccountHash, ActionType, AddKeyFailure, Api, Error, RemoveKeyFailure, SetThresholdFailure,
    UpdateKeyFailure, Weight,
};

fn all_errors() -> Vec<(Error, u16)> {
    vec![
        (Error::UnknownApiCommand, 1),
        (Error::PermissionDenied, 2),
        (Error::ThresholdViolation, 3),
        (Error::MaxKeysLimit, 4),
        (Error::DuplicateKey, 5),
        (Error::KeyManagementThreshold, 6),
        (Error::DeploymentThreshold, 7),
        (Error::InsufficientTotalWeight, 8),
        (Error::MissingArgument0, 20),
        (Error::MissingArgument1, 21),
        (Error::MissingArgument2, 22),
        (Error::InvalidArgument0, 23),
        (Error::InvalidArgument1, 24),
        (Error::InvalidArgument2, 25),
        (Error::UnsupportedNumberOfArguments, 30),
    ]
}

#[test]
fn every_error_has_its_code() {
    for (error, code) in all_errors() {
        assert_eq!(error.code(), code);
    }
}

#[test]
fn codes_are_distinct() {
    let errors = all_errors();
    for (i, (first, _)) in errors.iter().enumerate() {
        for (second, _) in errors.iter().skip(i + 1) {
            assert_ne!(first.code(), second.code());
            assert_ne!(first, second);
        }
    }
}

#[test]
fn exit_code_is_the_code_above_the_reserved_range() {
    assert_eq!(Error::UnknownApiCommand.exit_code(), 65_537);
    assert_eq!(Error::PermissionDenied.exit_code(), 65_538);
    assert_eq!(Error::UnsupportedNumberOfArguments.exit_code(), 65_566);
    for (error, code) in all_errors() {
        assert_eq!(error.exit_code(), 65_536 + u32::from(code));
    }
}

#[test]
fn exit_code_is_a_user_error() {
    for (error, code) in all_errors() {
        assert_eq!(ApiError::from(error.exit_code()), ApiError::User(code));
        assert_eq!(u32::from(ApiError::User(error.code())), error.exit_code());
    }
}

#[test]
fn missing_argument_by_position() {
    assert_eq!(Error::missing_argument(0), Error::MissingArgument0);
    assert_eq!(Error::missing_argument(1), Error::MissingArgument1);
    assert_eq!(Error::missing_argument(2), Error::MissingArgument2);
    assert_eq!(Error::missing_argument(3), Error::UnsupportedNumberOfArguments);
    assert_eq!(Error::missing_argument(4), Error::UnsupportedNumberOfArguments);
    assert_eq!(Error::missing_argument(u32::MAX), Error::UnsupportedNumberOfArguments);
    assert_eq!(Error::missing_argument(0).code(), 20);
    assert_eq!(Error::missing_argument(1).code(), 21);
    assert_eq!(Error::missing_argument(2).code(), 22);
    assert_eq!(Error::missing_argument(3).code(), 30);
}

#[test]
fn invalid_argument_by_position() {
    assert_eq!(Error::invalid_argument(0), Error::InvalidArgument0);
    assert_eq!(Error::invalid_argument(1), Error::InvalidArgument1);
    assert_eq!(Error::invalid_argument(2), Error::InvalidArgument2);
    assert_eq!(Error::invalid_argument(3), Error::UnsupportedNumberOfArguments);
    assert_eq!(Error::invalid_argument(100), Error::UnsupportedNumberOfArguments);
    assert_eq!(Error::invalid_argument(u32::MAX), Error::UnsupportedNumberOfArguments);
    assert_eq!(Error::invalid_argument(0).code(), 23);
    assert_eq!(Error::invalid_argument(1).code(), 24);
    assert_eq!(Error::invalid_argument(2).code(), 25);
    assert_eq!(Error::invalid_argument(3).code(), 30);
}

#[test]
fn add_key_answers() {
    assert_eq!(add_key_outcome(Ok(())), Ok(()));
    assert_eq!(add_key_outcome(Err(AddKeyFailure::MaxKeysLimit)), Err(Error::MaxKeysLimit));
    assert_eq!(add_key_outcome(Err(AddKeyFailure::DuplicateKey)), Err(Error::DuplicateKey));
    assert_eq!(
        add_key_outcome(Err(AddKeyFailure::PermissionDenied)),
        Err(Error::PermissionDenied)
    );
}

#[test]
fn update_key_answers() {
    let key = AccountHash::new([8u8; 32]);
    let weight = Weight::new(6).unwrap();
    assert_eq!(update_key_outcome(key, weight, Ok(())), Step::Finished(Ok(())));
    assert_eq!(
        update_key_outcome(key, weight, Err(UpdateKeyFailure::MissingKey)),
        Step::AddKey(key, weight)
    );
    assert_eq!(
        update_key_outcome(key, weight, Err(UpdateKeyFailure::PermissionDenied)),
        Step::Finished(Err(Error::PermissionDenied))
    );
    assert_eq!(
        update_key_outcome(key, weight, Err(UpdateKeyFailure::ThresholdViolation)),
        Step::Finished(Err(Error::ThresholdViolation))
    );
}

#[test]
fn first_step_of_a_key_weight() {
    let key = AccountHash::new([8u8; 32]);
    assert_eq!(key_weight_step(key, 0), Step::RemoveKey(key));
    assert_eq!(key_weight_step(key, 1), Step::UpdateKey(key, Weight::new(1).unwrap()));
    assert_eq!(key_weight_step(key, 255), Step::UpdateKey(key, Weight::new(255).unwrap()));
    assert_eq!(first_step(Api::SetKeyWeight(key, 0)), Step::RemoveKey(key));
    assert_eq!(
        first_step(Api::SetKeyWeight(key, 7)),
        Step::UpdateKey(key, Weight::new(7).unwrap())
    );
}

#[test]
fn first_step_of_a_threshold() {
    assert_eq!(
        threshold_step(ActionType::Deployment, 0),
        Step::ZeroThreshold(ActionType::Deployment)
    );
    assert_eq!(
        threshold_step(ActionType::KeyManagement, 0),
        Step::ZeroThreshold(ActionType::KeyManagement)
    );
    assert_eq!(
        threshold_step(ActionType::Deployment, 1),
        Step::SetThreshold(ActionType::Deployment, Weight::new(1).unwrap())
    );
    assert_eq!(
        threshold_step(ActionType::KeyManagement, 255),
        Step::SetThreshold(ActionType::KeyManagement, Weight::new(255).unwrap())
    );
    assert_eq!(
        first_step(Api::SetDeploymentThreshold(0)),
        Step::ZeroThreshold(ActionType::Deployment)
    );
    assert_eq!(
        first_step(Api::SetKeyManagementThreshold(0)),
        Step::ZeroThreshold(ActionType::KeyManagement)
    );
    assert_eq!(
        first_step(Api::SetDeploymentThreshold(3)),
        Step::SetThreshold(ActionType::Deployment, Weight::new(3).unwrap())
    );
    assert_eq!(
        first_step(Api::SetKeyManagementThreshold(4)),
        Step::SetThreshold(ActionType::KeyManagement, Weight::new(4).unwrap())
    );
}

#[test]
fn zero_threshold_answers() {
    assert_eq!(
        zero_threshold_outcome(ActionType::Deployment, true),
        Err(Error::DeploymentThreshold)
    );
    assert_eq!(
        zero_threshold_outcome(ActionType::KeyManagement, true),
        Err(Error::KeyManagementThreshold)
    );
    assert_eq!(
        zero_threshold_outcome(ActionType::Deployment, false),
        Err(Error::PermissionDenied)
    );
    assert_eq!(
        zero_threshold_outcome(ActionType::KeyManagement, false),
        Err(Error::PermissionDenied)
    );
}

#[test]
fn remove_key_answers() {
    assert_eq!(remove_key_outcome(Ok(())), Ok(()));
    assert_eq!(remove_key_outcome(Err(RemoveKeyFailure::MissingKey)), Ok(()));
    assert_eq!(
        remove_key_outcome(Err(RemoveKeyFailure::PermissionDenied)),
        Err(Error::PermissionDenied)
    );
    assert_eq!(
        remove_key_outcome(Err(RemoveKeyFailure::ThresholdViolation)),
        Err(Error::ThresholdViolation)
    );
}

#[test]
fn set_threshold_answers() {
    assert_eq!(set_threshold_outcome(Ok(())), Ok(()));
    assert_eq!(
        set_threshold_outcome(Err(SetThresholdFailure::KeyManagementThreshold)),
        Err(Error::KeyManagementThreshold)
    );
    assert_eq!(
        set_threshold_outcome(Err(SetThresholdFailure::DeploymentThreshold)),
        Err(Error::DeploymentThreshold)
    );
    assert_eq!(
        set_threshold_outcome(Err(SetThresholdFailure::PermissionDenied)),
        Err(Error::PermissionDenied)
    );
    assert_eq!(
        set_threshold_outcome(Err(SetThresholdFailure::InsufficientTotalWeight)),
        Err(Error::InsufficientTotalWeight)
    );
}
