//! The split of a settled pool between the platform and the winner.

use vstd::prelude::*;

verus! {

/// The platform's share of a pool, in percent.
pub const PLATFORM_FEE_PERCENT: u64 = 5;

/// The platform fee on a pool: five percent, rounded down.
pub open spec fn platform_fee_of(total_pool: int) -> int {
    total_pool * 5 / 100
}

/// What the winner receives from a pool: all of it but the platform fee, so
/// the remainder of the rounding goes to the winner.
pub open spec fn winner_payout_of(total_pool: int) -> int {
    total_pool - platform_fee_of(total_pool)
}

/// Splits `total_pool` into `(platform_fee, winner_payout)`. Defined for
/// every pool: the fee is computed without forming `total_pool * 5`.
pub fn calculate_payout(total_pool: u64) -> (r: (u64, u64))
    ensures
        r.0 == platform_fee_of(total_pool as int),
        r.1 == winner_payout_of(total_pool as int),
        r.0 + r.1 == total_pool,
        r.0 <= r.1,
{
    let hundreds: u64 = total_pool / 100;
    let rest: u64 = total_pool % 100;
    proof {
        assert(total_pool == 100 * hundreds + rest && rest < 100);
        assert(hundreds * PLATFORM_FEE_PERCENT <= total_pool) by (nonlinear_arith)
            requires
                total_pool == 100 * hundreds + rest,
                PLATFORM_FEE_PERCENT == 5,
        ;
        assert((total_pool as int) * 5 / 100 == hundreds * 5 + rest * 5 / 100) by (nonlinear_arith)
            requires
                total_pool == 100 * hundreds + rest,
                0 <= rest < 100,
        ;
    }
    let platform_fee: u64 = hundreds * PLATFORM_FEE_PERCENT + rest * PLATFORM_FEE_PERCENT / 100;
    let winner_payout: u64 = total_pool - platform_fee;
    (platform_fee, winner_payout)
}

} // verus!
