use vstd::prelude::*;
use crate::derivation::{employee_seeds, ledger_seeds, spec_derive};
use crate::engine::{claim_outcome_spec, claimable_spec, lemma_vested_bounds, time_since_start, vested_spec};
use crate::error::ErrorCode;
use crate::state::EmployeeAccount;
use crate::store::{claim_tokens_post, has_key, kv_get, VestingStore};

verus! {

/// Before the cliff, a claim on an unrevoked schedule fails with the
/// temporal error, whatever the schedule's allocation and withdrawal state:
/// neither enters the guard that decides.
pub proof fn lemma_claim_before_cliff(e: EmployeeAccount, now: i64)
    requires
        !e.revoked,
        now < e.cliff_time,
    ensures
        claim_outcome_spec(e, now) == Result::<u64, ErrorCode>::Err(ErrorCode::ClaimNotAvailable),
{
}

/// From the end of the window on, exactly the whole allocation is vested.
pub proof fn lemma_fully_vested(total_amount: u64, start: i64, end: i64, now: i64)
    requires
        now >= end,
    ensures
        vested_spec(total_amount, start, end, now) == total_amount,
{
}

/// Inside the window, the vested amount is the allocation scaled linearly by
/// the elapsed share of the window, rounded down.
pub proof fn lemma_vested_linear(total_amount: u64, start: i64, end: i64, now: i64)
    requires
        end - start > 0,
        start <= now < end,
    ensures
        vested_spec(total_amount, start, end, now) == (total_amount as int) * (now - start) / (end
            - start),
{
    assert(time_since_start(start, now) == now - start);
}

/// A successful claim outcome is exactly the claimable amount — the vested
/// amount minus the recorded withdrawals, floored at zero — and it is
/// positive. The store's claim operation then adds exactly this amount to
/// the schedule's withdrawals.
pub proof fn lemma_successful_claim_amount(e: EmployeeAccount, now: i64, c: u64)
    requires
        claim_outcome_spec(e, now) == Result::<u64, ErrorCode>::Ok(c),
    ensures
        c == claimable_spec(e.total_amount, e.start_time, e.end_time, e.total_withdrawn, now),
        c > 0,
        e.total_withdrawn + c == vested_spec(e.total_amount, e.start_time, e.end_time, now),
{
    lemma_vested_bounds(e.total_amount, e.start_time, e.end_time, now);
}

/// A successful claim keeps the withdrawals within the allocation: the
/// well-formedness invariant of a schedule survives every claim.
pub proof fn lemma_claim_preserves_allocation_bound(e: EmployeeAccount, now: i64, c: u64)
    requires
        claim_outcome_spec(e, now) == Result::<u64, ErrorCode>::Ok(c),
    ensures
        e.total_withdrawn + c <= e.total_amount,
{
    lemma_vested_bounds(e.total_amount, e.start_time, e.end_time, now);
}

/// On a revoked schedule the claim engine fails with the state error, at
/// every instant.
pub proof fn lemma_revoked_claim_fails(e: EmployeeAccount, now: i64)
    requires
        e.revoked,
    ensures
        claim_outcome_spec(e, now) == Result::<u64, ErrorCode>::Err(ErrorCode::EmployeeRevoked),
{
}

/// Once a schedule is revoked, every claim its beneficiary addresses to it
/// fails with the state error and leaves the whole store unchanged, at every
/// instant.
pub proof fn lemma_claim_on_revoked_store(
    pre: VestingStore,
    post: VestingStore,
    company: Seq<u8>,
    beneficiary: Seq<u8>,
    now: i64,
    r: Result<u64, ErrorCode>,
)
    requires
        claim_tokens_post(pre, post, company, beneficiary, beneficiary, now, r),
        (match spec_derive(ledger_seeds(company), pre.program_id@) {
            Option::Some(laddr) => has_key(pre.ledgers@, laddr.0) && (match spec_derive(
                employee_seeds(beneficiary, laddr.0),
                pre.program_id@,
            ) {
                Option::Some(eaddr) => has_key(pre.employees@, eaddr.0) && kv_get(
                    pre.employees@,
                    eaddr.0,
                ).revoked && kv_get(pre.employees@, eaddr.0).beneficiary@ == beneficiary && kv_get(
                    pre.employees@,
                    eaddr.0,
                ).vesting_account@ == laddr.0,
                Option::None => false,
            }),
            Option::None => false,
        }),
    ensures
        post == pre,
        r == Result::<u64, ErrorCode>::Err(ErrorCode::EmployeeRevoked),
{
}

} // verus!
