//! The errors a policy edit can end with, and their stable numeric codes.

use vstd::prelude::*;

verus! {

/// Why a policy edit was refused. Each kind has a fixed numeric code, given by
/// [`Error::code`], that callers see verbatim.
#[derive(Clone, Copy, Debug, PartialEq, Eq, Structural)]
pub enum Error {
    /// The requested command is not one this library knows.
    UnknownApiCommand,
    /// The signers' weight is below the key-management threshold.
    PermissionDenied,
    /// Removing or lowering a key would leave a threshold out of reach.
    ThresholdViolation,
    /// The account already holds as many keys as it may.
    MaxKeysLimit,
    /// The key to add is already associated with the account.
    DuplicateKey,
    /// The new key-management threshold would fall below the deployment one.
    KeyManagementThreshold,
    /// The new deployment threshold would exceed the key-management one.
    DeploymentThreshold,
    /// The new threshold exceeds the total weight of the account's keys.
    InsufficientTotalWeight,
    /// The first positional argument is absent.
    MissingArgument0,
    /// The second positional argument is absent.
    MissingArgument1,
    /// The third positional argument is absent.
    MissingArgument2,
    /// The first positional argument has the wrong type.
    InvalidArgument0,
    /// The second positional argument has the wrong type.
    InvalidArgument1,
    /// The third positional argument has the wrong type.
    InvalidArgument2,
    /// An argument position beyond the third was named.
    UnsupportedNumberOfArguments,
}

impl Error {
    /// The numeric code of each error kind.
    pub open spec fn spec_code(self) -> u16 {
        match self {
            Error::UnknownApiCommand => 1,
            Error::PermissionDenied => 2,
            Error::ThresholdViolation => 3,
            Error::MaxKeysLimit => 4,
            Error::DuplicateKey => 5,
            Error::KeyManagementThreshold => 6,
            Error::DeploymentThreshold => 7,
            Error::InsufficientTotalWeight => 8,
            Error::MissingArgument0 => 20,
            Error::MissingArgument1 => 21,
            Error::MissingArgument2 => 22,
            Error::InvalidArgument0 => 23,
            Error::InvalidArgument1 => 24,
            Error::InvalidArgument2 => 25,
            Error::UnsupportedNumberOfArguments => 30,
        }
    }

    /// The error for an absent argument at position `i`.
    pub open spec fn spec_missing_argument(i: u32) -> Error {
        if i == 0 {
            Error::MissingArgument0
        } else if i == 1 {
            Error::MissingArgument1
        } else if i == 2 {
            Error::MissingArgument2
        } else {
            Error::UnsupportedNumberOfArguments
        }
    }

    /// The error for an ill-typed argument at position `i`.
    pub open spec fn spec_invalid_argument(i: u32) -> Error {
        if i == 0 {
            Error::InvalidArgument0
        } else if i == 1 {
            Error::InvalidArgument1
        } else if i == 2 {
            Error::InvalidArgument2
        } else {
            Error::UnsupportedNumberOfArguments
        }
    }

    /// The stable numeric code under which this error is reported.
    #[verifier::when_used_as_spec(spec_code)]
    pub fn code(self) -> (code: u16)
        ensures
            code == self.spec_code(),
    {
        match self {
            Error::UnknownApiCommand => 1,
            Error::PermissionDenied => 2,
            Error::ThresholdViolation => 3,
            Error::MaxKeysLimit => 4,
            Error::DuplicateKey => 5,
            Error::KeyManagementThreshold => 6,
            Error::DeploymentThreshold => 7,
            Error::InsufficientTotalWeight => 8,
            Error::MissingArgument0 => 20,
            Error::MissingArgument1 => 21,
            Error::MissingArgument2 => 22,
            Error::InvalidArgument0 => 23,
            Error::InvalidArgument1 => 24,
            Error::InvalidArgument2 => 25,
            Error::UnsupportedNumberOfArguments => 30,
        }
    }

    /// The status with which a call that ends in this error exits: the code,
    /// raised above the range that the platform keeps for its own errors.
    pub fn exit_code(self) -> (status: u32)
        ensures
            status == 65536 + self.spec_code(),
    {
        user_error_number(self.code())
    }

    /// The error that reports that the argument at position `i` is absent:
    /// one kind for each of the first three positions, and
    /// `UnsupportedNumberOfArguments` for any later one.
    #[verifier::when_used_as_spec(spec_missing_argument)]
    pub fn missing_argument(i: u32) -> (error: Error)
        ensures
            error == Error::spec_missing_argument(i),
            i <= 2 ==> error.spec_code() == 20 + i,
            i > 2 ==> error == Error::UnsupportedNumberOfArguments,
    {
        match i {
            0 => Error::MissingArgument0,
            1 => Error::MissingArgument1,
            2 => Error::MissingArgument2,
            _ => Error::UnsupportedNumberOfArguments,
        }
    }

    /// The error that reports that the argument at position `i` has the wrong
    /// type: one kind for each of the first three positions, and
    /// `UnsupportedNumberOfArguments` for any later one.
    #[verifier::when_used_as_spec(spec_invalid_argument)]
    pub fn invalid_argument(i: u32) -> (error: Error)
        ensures
            error == Error::spec_invalid_argument(i),
            i <= 2 ==> error.spec_code() == 23 + i,
            i > 2 ==> error == Error::UnsupportedNumberOfArguments,
    {
        match i {
            0 => Error::InvalidArgument0,
            1 => Error::InvalidArgument1,
            2 => Error::InvalidArgument2,
            _ => Error::UnsupportedNumberOfArguments,
        }
    }
}

/// The number that `casper_types` gives to a user error: `u32::from` on
/// `ApiError::User(code)`. The claim, which is not proved here, is what the
/// documentation of `ApiError::User` says: the code is added to 65536, one
/// above the largest number reserved for the platform's own errors.
#[verifier::external_body]
fn user_error_number(code: u16) -> (number: u32)
    ensures
        number == 65536 + code,
{
    u32::from(casper_types::ApiError::User(code))
}

} // verus!
