use vstd::prelude::*;
use vstd::arithmetic::div_mod::{lemma_div_is_ordered, lemma_div_multiples_vanish, lemma_div_pos_is_pos};
use vstd::arithmetic::mul::{lemma_mul_inequality, lemma_mul_upper_bound};
use crate::error::ErrorCode;
use crate::state::EmployeeAccount;

verus! {

/// Time elapsed since `start` at instant `now`, floored at zero.
pub open spec fn time_since_start(start: i64, now: i64) -> int {
    if now - start >= 0 {
        now - start
    } else {
        0
    }
}

/// The piecewise-linear vested amount of a schedule at instant `now`:
/// the whole allocation once the window has ended, otherwise the allocation
/// scaled by the elapsed share of the window, rounded down.
pub open spec fn vested_spec(total_amount: u64, start: i64, end: i64, now: i64) -> int
    recommends
        end - start > 0,
{
    if now >= end {
        total_amount as int
    } else {
        (total_amount as int) * time_since_start(start, now) / (end - start)
    }
}

/// The amount a beneficiary may claim at `now`: the vested amount minus what
/// was already withdrawn, floored at zero.
pub open spec fn claimable_spec(
    total_amount: u64,
    start: i64,
    end: i64,
    total_withdrawn: u64,
    now: i64,
) -> int
    recommends
        end - start > 0,
{
    let v = vested_spec(total_amount, start, end, now);
    if v >= total_withdrawn {
        v - total_withdrawn
    } else {
        0
    }
}

/// The vested amount always lies between zero and the allocation.
pub proof fn lemma_vested_bounds(total_amount: u64, start: i64, end: i64, now: i64)
    requires
        end - start > 0,
    ensures
        0 <= vested_spec(total_amount, start, end, now) <= total_amount,
{
    if now >= end {
    } else {
        let total = total_amount as int;
        let ts = time_since_start(start, now);
        let dur = end - start;
        assert(0 <= ts <= dur);
        lemma_mul_inequality(ts, dur, total);
        lemma_div_is_ordered(total * ts, total * dur, dur);
        lemma_div_multiples_vanish(total, dur);
        lemma_div_pos_is_pos(total * ts, dur);
        assert(total * ts >= 0) by {
            lemma_mul_upper_bound(0, total, 0, ts);
        }
    }
}

/// Computes the vested amount of an allocation at instant `now`.
///
/// The multiplication is carried out in 128 bits, which a 64-bit allocation
/// times a 64-bit elapsed time can never overflow; division truncates toward
/// zero on the non-negative operands.
pub fn vested_amount(total_amount: u64, start_time: i64, end_time: i64, now: i64) -> (r: u64)
    requires
        end_time - start_time > 0,
    ensures
        r == vested_spec(total_amount, start_time, end_time, now),
{
    if now >= end_time {
        total_amount
    } else {
        let ts_wide: i128 = (now as i128) - (start_time as i128);
        let ts: u128 = if ts_wide >= 0 {
            ts_wide as u128
        } else {
            0u128
        };
        let dur_wide: i128 = (end_time as i128) - (start_time as i128);
        let dur: u128 = dur_wide as u128;
        proof {
            assert(ts <= u64::MAX);
            assert((total_amount as int) * (ts as int) <= u128::MAX) by {
                lemma_mul_upper_bound(total_amount as int, u64::MAX as int, ts as int, u64::MAX as int);
            }
        }
        let prod: u128 = (total_amount as u128) * ts;
        let v: u128 = prod / dur;
        proof {
            lemma_vested_bounds(total_amount, start_time, end_time, now);
        }
        v as u64
    }
}

/// The outcome the claim engine owes a resolved, authorized schedule at
/// instant `now`: the first failing guard in the order revocation, cliff,
/// window validity, emptiness; otherwise the claimable amount.
pub open spec fn claim_outcome_spec(e: EmployeeAccount, now: i64) -> Result<u64, ErrorCode> {
    if e.revoked {
        Result::Err(ErrorCode::EmployeeRevoked)
    } else if now < e.cliff_time {
        Result::Err(ErrorCode::ClaimNotAvailable)
    } else if e.end_time - e.start_time <= 0 {
        Result::Err(ErrorCode::InvalidVestingDuration)
    } else {
        let c = claimable_spec(e.total_amount, e.start_time, e.end_time, e.total_withdrawn, now);
        if c == 0 {
            Result::Err(ErrorCode::NothingToClaim)
        } else {
            Result::Ok(c as u64)
        }
    }
}

/// Evaluates the claim guards and the claimable amount for a schedule, without
/// touching any state. The widened arithmetic can neither overflow nor lose
/// precision, so no arithmetic error is ever returned.
pub fn evaluate_claim(e: &EmployeeAccount, now: i64) -> (r: Result<u64, ErrorCode>)
    ensures
        r == claim_outcome_spec(*e, now),
{
    if e.revoked {
        return Err(ErrorCode::EmployeeRevoked);
    }
    if now < e.cliff_time {
        return Err(ErrorCode::ClaimNotAvailable);
    }
    let dur_wide: i128 = (e.end_time as i128) - (e.start_time as i128);
    if dur_wide <= 0 {
        return Err(ErrorCode::InvalidVestingDuration);
    }
    let vested: u64 = vested_amount(e.total_amount, e.start_time, e.end_time, now);
    let claimable: u64 = if vested >= e.total_withdrawn {
        vested - e.total_withdrawn
    } else {
        0
    };
    if claimable == 0 {
        Err(ErrorCode::NothingToClaim)
    } else {
        Ok(claimable)
    }
}

} // verus!
