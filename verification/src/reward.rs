use crate::FarmError;
use vstd::prelude::*;

verus! {

/// Reward-pool units paid per full reward interval.
pub const REWARD_PER_INTERVAL: u64 = 10;

/// Length of one reward interval in seconds; a payout is due only for a
/// staked duration strictly greater than this.
pub const INTERVAL_SECONDS: u64 = 86400;

/// Fixed-point scale applied when turning the per-interval reward into a
/// truncated per-second rate.
pub const RATE_SCALE: u64 = 10000000;

/// Divisor applied after multiplying the elapsed time by the scaled rate.
pub const PAYOUT_DIVISOR: u64 = 1000;

/// The truncated, fixed-point per-second reward rate.
pub open spec fn spec_reward_rate_per_second() -> u64 {
    (REWARD_PER_INTERVAL * RATE_SCALE / (INTERVAL_SECONDS as int)) as u64
}

/// The reward owed for a staked duration: the elapsed seconds times the
/// truncated per-second rate, truncated again by the payout divisor. The
/// intermediate product must fit in a u64.
pub open spec fn spec_compute_reward(elapsed: u64) -> Result<u64, FarmError> {
    if elapsed * spec_reward_rate_per_second() <= u64::MAX {
        Ok(((elapsed * spec_reward_rate_per_second()) / (PAYOUT_DIVISOR as int)) as u64)
    } else {
        Err(FarmError::ArithmeticOverflow)
    }
}

/// Whether a staked duration has earned a payout: strictly more than one
/// full interval must have elapsed.
pub open spec fn spec_payout_due(elapsed: u64) -> bool {
    elapsed > INTERVAL_SECONDS
}

/// The truncated per-second reward rate as a concrete value.
pub fn reward_rate_per_second() -> (r: u64)
    ensures
        r == spec_reward_rate_per_second(),
{
    REWARD_PER_INTERVAL * RATE_SCALE / INTERVAL_SECONDS
}

/// Computes the reward owed for a staked duration, reporting overflow when
/// the scaled product does not fit.
pub fn compute_reward(elapsed: u64) -> (r: Result<u64, FarmError>)
    ensures
        r == spec_compute_reward(elapsed),
{
    let rate = reward_rate_per_second();
    match elapsed.checked_mul(rate) {
        Some(scaled) => Ok(scaled / PAYOUT_DIVISOR),
        None => Err(FarmError::ArithmeticOverflow),
    }
}

} // verus!
