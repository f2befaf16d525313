//! Voting power of governance stakes.
use vstd::prelude::*;

verus! {

/// Seconds in a (365-day) year.
pub const SECONDS_PER_YEAR: u64 = 31536000;

/// Voting power multiplier, in percent, for a stake held `stake_duration`
/// seconds: 100 plus 10 for each full year, the bonus capped at 200.
pub open spec fn voting_power_multiplier(stake_duration: u64) -> int {
    let bonus = (stake_duration / SECONDS_PER_YEAR) * 10;
    100 + if bonus <= 200 {
        bonus as int
    } else {
        200
    }
}

/// Returns the voting power multiplier, in percent, for a stake held
/// `stake_duration` seconds.
pub fn calculate_voting_power_multiplier(stake_duration: u64) -> (r: u32)
    ensures
        r == voting_power_multiplier(stake_duration),
{
    let years_staked: u64 = stake_duration / SECONDS_PER_YEAR;
    let bonus: u64 = if years_staked >= 20 {
        200
    } else {
        years_staked * 10
    };
    100 + bonus as u32
}

} // verus!
