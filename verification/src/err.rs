//! The errors of the treasury and the classes they fall into.
//!
//! Every operation is all or nothing: one that returns an error has left the
//! record it was given as it was.

use vstd::prelude::*;

verus! {

/// What the custodial token service answered when a transfer did not go through.
///
/// The code is the service's own and is handed on to the caller as it came.
#[derive(Clone, Copy, Debug, PartialEq, Eq, Structural)]
pub struct TransferError {
    pub code: u64,
}

/// The four classes of failure.
#[derive(Clone, Copy, Debug, PartialEq, Eq, Structural)]
pub enum ErrorKind {
    /// A bad argument or a mismatched account.
    Validation,
    /// The caller may not perform the operation.
    Authorization,
    /// Amount arithmetic left the representable range.
    Arithmetic,
    /// The custodial token service failed.
    ExternalDependency,
}

#[derive(Clone, Copy, Debug, PartialEq, Eq, Structural)]
pub enum VestingError {
    /// A schedule must promise at least one token.
    ZeroVestingAmount,
    /// A schedule must run over at least one period.
    ZeroTotalPeriods,
    /// The cliff cannot lie beyond the end of the schedule.
    CliffExceedsTotalPeriods,
    /// The number given for the period type names no period type.
    UnknownPeriodType,
    /// Vesting is computed for daily and monthly periods only.
    UnsupportedPeriodType,
    /// The vault handed in is not the vault of the schedule.
    VaultMismatch,
    /// The funding wallet holds another token than the schedule vests.
    MintMismatch,
    /// A deposit must move at least one token.
    ZeroFundingAmount,
    /// The caller is not the admin of the schedule.
    Unauthorized,
    /// An amount overflowed, underflowed or was divided by zero.
    MathOverflow,
    /// The custodial token service refused or failed the transfer.
    Transfer(TransferError),
}

impl VestingError {
    pub open spec fn spec_kind(self) -> ErrorKind {
        match self {
            VestingError::Unauthorized => ErrorKind::Authorization,
            VestingError::MathOverflow => ErrorKind::Arithmetic,
            VestingError::Transfer(_) => ErrorKind::ExternalDependency,
            _ => ErrorKind::Validation,
        }
    }

    /// The class of this error.
    #[verifier::when_used_as_spec(spec_kind)]
    pub fn kind(self) -> (kind: ErrorKind)
        ensures
            kind == self.spec_kind(),
    {
        match self {
            VestingError::Unauthorized => ErrorKind::Authorization,
            VestingError::MathOverflow => ErrorKind::Arithmetic,
            VestingError::Transfer(_) => ErrorKind::ExternalDependency,
            _ => ErrorKind::Validation,
        }
    }

    pub open spec fn spec_message(self) -> Seq<char> {
        match self {
            VestingError::ZeroVestingAmount => "The vesting amount must be greater than zero"@,
            VestingError::ZeroTotalPeriods => "The number of vesting periods must be greater than zero"@,
            VestingError::CliffExceedsTotalPeriods => "The cliff cannot be longer than the vesting schedule"@,
            VestingError::UnknownPeriodType => "The period type is not one of the known period types"@,
            VestingError::UnsupportedPeriodType => "The current contract version only supports vesting schedules with daily or monthly periods"@,
            VestingError::VaultMismatch => "Vault input does not match the vault in the vesting account"@,
            VestingError::MintMismatch => "Funding wallet must be of correct mint"@,
            VestingError::ZeroFundingAmount => "The funding amount must be greater than zero"@,
            VestingError::Unauthorized => "Only the admin of the vesting schedule can perform this operation"@,
            VestingError::MathOverflow => "Math operation overflowed"@,
            VestingError::Transfer(_) => "The token transfer failed"@,
        }
    }

    /// A sentence for the user.
    pub fn message(self) -> (text: &'static str)
        ensures
            text@ == self.spec_message(),
    {
        match self {
            VestingError::ZeroVestingAmount => "The vesting amount must be greater than zero",
            VestingError::ZeroTotalPeriods => "The number of vesting periods must be greater than zero",
            VestingError::CliffExceedsTotalPeriods => "The cliff cannot be longer than the vesting schedule",
            VestingError::UnknownPeriodType => "The period type is not one of the known period types",
            VestingError::UnsupportedPeriodType => "The current contract version only supports vesting schedules with daily or monthly periods",
            VestingError::VaultMismatch => "Vault input does not match the vault in the vesting account",
            VestingError::MintMismatch => "Funding wallet must be of correct mint",
            VestingError::ZeroFundingAmount => "The funding amount must be greater than zero",
            VestingError::Unauthorized => "Only the admin of the vesting schedule can perform this operation",
            VestingError::MathOverflow => "Math operation overflowed",
            VestingError::Transfer(_) => "The token transfer failed",
        }
    }
}

} // verus!
