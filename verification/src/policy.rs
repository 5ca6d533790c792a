//! The fee and lockup policy engine.
//!
//! Pure functions that gate every stake-ledger transition: whether a duration
//! is allowed, whether a lockup has elapsed, and how a withdrawal splits into
//! fee and payout. The split is exact: fee plus payout always reconstructs
//! the original amount.

use vstd::prelude::*;

verus! {

/// Fees are quoted in basis points; 10000 bps is 100%.
pub const MAX_FEE_BPS: u16 = 10000;

/// Seconds in one day of lockup.
pub const SECONDS_PER_DAY: u32 = 86400;

/// The fee owed on `amount` at `fee_bps` basis points, rounded down.
pub open spec fn spec_fee_amount(amount: u64, fee_bps: u16) -> int {
    (amount * fee_bps) / (MAX_FEE_BPS as int)
}

/// A fee of at most 10000 basis points never exceeds the amount itself.
pub proof fn lemma_fee_within_amount(amount: u64, fee_bps: u16)
    requires
        fee_bps <= MAX_FEE_BPS,
    ensures
        0 <= spec_fee_amount(amount, fee_bps) <= amount,
{
    assert(0 <= (amount * fee_bps) / 10000 <= amount) by (nonlinear_arith)
        requires fee_bps <= 10000, amount >= 0;
}

/// Splits `amount` into the fee owed at `fee_bps` and the payout that is
/// left, with nothing lost or created: the two always sum back to `amount`.
pub fn compute_fee_split(amount: u64, fee_bps: u16) -> (r: (u64, u64))
    requires
        fee_bps <= MAX_FEE_BPS,
    ensures
        r.0 == spec_fee_amount(amount, fee_bps),
        r.1 == amount - spec_fee_amount(amount, fee_bps),
        r.0 + r.1 == amount,
{
    proof {
        lemma_fee_within_amount(amount, fee_bps);
    }
    let wide: u128 = (amount as u128) * (fee_bps as u128);
    let fee: u64 = (wide / (MAX_FEE_BPS as u128)) as u64;
    let payout: u64 = amount - fee;
    (fee, payout)
}

/// The length of the lockup in seconds for a duration given in days.
pub open spec fn spec_lockup_seconds(duration_days: u32) -> int {
    duration_days * (SECONDS_PER_DAY as int)
}

/// Whether the lockup that began at `stake_timestamp` for `duration_days`
/// has ended by `now`.
pub open spec fn spec_lockup_ended(stake_timestamp: i64, duration_days: u32, now: i64) -> bool {
    stake_timestamp + spec_lockup_seconds(duration_days) <= now
}

/// Evaluates the lockup deadline, widening so that no timestamp overflows.
pub fn lockup_ended(stake_timestamp: i64, duration_days: u32, now: i64) -> (r: bool)
    ensures
        r == spec_lockup_ended(stake_timestamp, duration_days, now),
{
    let lockup: i128 = (duration_days as i128) * (SECONDS_PER_DAY as i128);
    (stake_timestamp as i128) + lockup <= (now as i128)
}

/// Whether `duration_days` is one of the allowed durations.
pub open spec fn spec_duration_allowed(durations: Seq<u32>, duration_days: u32) -> bool {
    durations.contains(duration_days)
}

/// Membership test against a project's allowed-duration list.
pub fn duration_allowed(durations: &Vec<u32>, duration_days: u32) -> (r: bool)
    ensures
        r == spec_duration_allowed(durations@, duration_days),
{
    let mut i: usize = 0;
    while i < durations.len()
        invariant
            i <= durations.len(),
            forall|j: int| 0 <= j < i ==> durations@[j] != duration_days,
        decreases durations.len() - i,
    {
        if durations[i] == duration_days {
            return true;
        }
        i += 1;
    }
    false
}

} // verus!
