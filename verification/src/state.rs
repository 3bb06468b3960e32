use vstd::prelude::*;
use crate::identity::Identity;

verus! {

/// Maximum length, in bytes, of a company name.
pub const MAX_COMPANY_NAME_LEN: usize = 100;

/// Per-company vesting ledger: binds an owning authority, an asset type and a
/// custody account, and doubles as the derivation anchor for its schedules.
///
/// `owner` is fixed at creation and never changes. `token_amount` is a
/// non-authoritative deposit counter: no operation of the core updates it.
pub struct VestingAccount {
    /// Immutable string identity of the company; also the derivation seed.
    pub company_name: Vec<u8>,
    /// Authority permitted to register and revoke employees.
    pub owner: Identity,
    /// Identity of the fungible asset type this ledger custodies.
    pub mint: Identity,
    /// Identity of the custody account, controlled only by a derived authority.
    pub treasury_token_account: Identity,
    /// Non-authoritative deposit counter, initialized to zero.
    pub token_amount: u64,
    /// Bump seed completing the custody-account derivation.
    pub treasury_bump: u8,
    /// Bump seed completing the ledger derivation.
    pub bump: u8,
}

/// Per-beneficiary vesting schedule: allocation, vesting window and
/// withdrawal progress.
pub struct EmployeeAccount {
    /// Identity of the recipient.
    pub beneficiary: Identity,
    /// Identity of the owning ledger.
    pub vesting_account: Identity,
    /// Total units allocated, fixed at creation.
    pub total_amount: u64,
    /// Units already transferred to the beneficiary; only ever increases.
    pub total_withdrawn: u64,
    /// Start of the vesting window.
    pub start_time: i64,
    /// No claim succeeds before this time.
    pub cliff_time: i64,
    /// End of the vesting window; everything is vested from here on.
    pub end_time: i64,
    /// One-way flag: once set, no further claim succeeds.
    pub revoked: bool,
    /// Bump seed completing the schedule derivation.
    pub bump: u8,
}

impl EmployeeAccount {
    /// Well-formedness: withdrawals never exceed the allocation.
    pub open spec fn wf(self) -> bool {
        self.total_withdrawn <= self.total_amount
    }
}

} // verus!
