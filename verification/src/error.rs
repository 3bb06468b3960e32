use vstd::prelude::*;

verus! {

/// The error taxonomy of the vesting core.
///
/// Every operation aborts with one of these kinds and leaves the store
/// unchanged; none is recovered internally.
#[derive(Clone, Copy, Debug, PartialEq, Eq, Structural)]
pub enum ErrorCode {
    /// A claim was attempted before the schedule's cliff time.
    ClaimNotAvailable,
    /// The computed claimable amount is zero.
    NothingToClaim,
    /// The schedule's vesting duration is not positive.
    InvalidVestingDuration,
    /// The vested-amount multiplication overflowed the widened width.
    CalculationOverflow,
    /// The vested-amount division could not be carried out.
    CalculationUnderflow,
    /// A claim was attempted on a revoked schedule.
    EmployeeRevoked,
    /// The caller is not the owner or beneficiary the operation requires.
    Unauthorized,
    /// No record exists at the derived identity.
    AccountNotFound,
    /// A record already exists at the derived identity.
    AlreadyExists,
    /// The company name exceeds the length bound.
    CompanyNameTooLong,
    /// No viable bump seed exists for the requested derivation.
    DerivationFailure,
}

} // verus!
