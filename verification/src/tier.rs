//! Error-percentage computation and the reward tier table.
//!
//! The error percentage of a forecast is `floor(|actual - predicted| * 100 /
//! actual)`. A published actual value of zero would divide by zero, so it is
//! given a fixed policy instead: the error is 0 when the forecast is also
//! zero and 100 otherwise. The tier table is evaluated top to bottom, first
//! match wins.

use vstd::prelude::*;
use crate::data::Balance;

verus! {

/// Reward for an error of at most 5 percent: one token at scale 12.
pub const TOP_TIER_REWARD: Balance = 1000000000000;

/// Reward for an error of at most 10 percent: half a token.
pub const MID_TIER_REWARD: Balance = 500000000000;

/// Reward for an error of at most 20 percent: a tenth of a token.
pub const LOW_TIER_REWARD: Balance = 100000000000;

/// The absolute difference of two unsigned values, as a mathematical integer.
pub open spec fn abs_diff_spec(a: Balance, b: Balance) -> int {
    if a >= b {
        a - b
    } else {
        b - a
    }
}

/// The forecast error as an integer percentage of the actual value, with the
/// zero-actual policy described at the module level.
pub open spec fn error_percent_spec(predicted: Balance, actual: Balance) -> int {
    if actual == 0 {
        if predicted == 0 {
            0
        } else {
            100
        }
    } else {
        abs_diff_spec(actual, predicted) * 100 / (actual as int)
    }
}

/// The ordered tier table: the reward owed for a given error percentage.
pub open spec fn reward_for_spec(error_percent: int) -> Balance {
    if error_percent <= 5 {
        TOP_TIER_REWARD
    } else if error_percent <= 10 {
        MID_TIER_REWARD
    } else if error_percent <= 20 {
        LOW_TIER_REWARD
    } else {
        0
    }
}

/// The reward owed for a forecast against a published actual value.
pub open spec fn reward_of_spec(predicted: Balance, actual: Balance) -> Balance {
    reward_for_spec(error_percent_spec(predicted, actual))
}

/// Decides `100 * diff < bound * actual` without overflowing, for the small
/// tier bounds. Splitting `actual` at the hundreds digit keeps every
/// intermediate product far below `u128::MAX`.
fn lt_scaled(diff: u128, actual: u128, bound: u128) -> (r: bool)
    requires
        1 <= bound <= 21,
    ensures
        r == (100 * (diff as int) < (bound as int) * (actual as int)),
{
    proof {
        assert((actual as int) / 100 <= (u128::MAX as int) / 100) by (nonlinear_arith)
            requires actual <= u128::MAX;
        assert((bound as int) * ((actual as int) / 100) <= 21 * ((u128::MAX as int) / 100))
            by (nonlinear_arith)
            requires 1 <= bound <= 21, 0 <= (actual as int) / 100 <= (u128::MAX as int) / 100;
        assert((bound as int) * ((actual as int) % 100) <= 21 * 99) by (nonlinear_arith)
            requires 1 <= bound <= 21, 0 <= (actual as int) % 100, (actual as int) % 100 < 100;
    }
    let whole: u128 = bound * (actual / 100);
    let part: u128 = bound * (actual % 100);
    proof {
        assert((actual as int) == 100 * ((actual as int) / 100) + (actual as int) % 100)
            by (nonlinear_arith);
        assert((bound as int) * (actual as int) == 100 * (whole as int) + (part as int))
            by (nonlinear_arith)
            requires
                (actual as int) == 100 * ((actual as int) / 100) + (actual as int) % 100,
                (whole as int) == (bound as int) * ((actual as int) / 100),
                (part as int) == (bound as int) * ((actual as int) % 100);
    }
    if part == 0 {
        diff < whole
    } else {
        proof {
            assert(100 * (((part - 1) as int) / 100) <= (part - 1) as int) by (nonlinear_arith)
                requires part >= 1;
            assert(((part - 1) as int) < 100 * ((((part - 1) as int) / 100) + 1)) by (nonlinear_arith)
                requires part >= 1;
        }
        diff <= whole + (part - 1) / 100
    }
}

/// The reward owed for a forecast, computed without overflow for the full
/// range of unsigned fixed-point values.
pub fn reward_of(predicted: Balance, actual: Balance) -> (r: Balance)
    ensures
        r == reward_of_spec(predicted, actual),
{
    if actual == 0 {
        if predicted == 0 {
            TOP_TIER_REWARD
        } else {
            0
        }
    } else {
        let diff: u128 = if actual >= predicted {
            actual - predicted
        } else {
            predicted - actual
        };
        proof {
            lemma_floor_div_bound(diff as int, actual as int, 5);
            lemma_floor_div_bound(diff as int, actual as int, 10);
            lemma_floor_div_bound(diff as int, actual as int, 20);
        }
        if lt_scaled(diff, actual, 6) {
            TOP_TIER_REWARD
        } else if lt_scaled(diff, actual, 11) {
            MID_TIER_REWARD
        } else if lt_scaled(diff, actual, 21) {
            LOW_TIER_REWARD
        } else {
            0
        }
    }
}

/// Relates the floored error percentage to a product comparison: for a
/// positive divisor, `floor(100 * diff / actual) <= k` exactly when
/// `100 * diff < (k + 1) * actual`.
proof fn lemma_floor_div_bound(diff: int, actual: int, k: int)
    requires
        0 <= diff,
        1 <= actual,
        0 <= k,
    ensures
        (100 * diff / actual <= k) == (100 * diff < (k + 1) * actual),
{
    assert((100 * diff / actual <= k) == (100 * diff < (k + 1) * actual)) by (nonlinear_arith)
        requires 0 <= diff, 1 <= actual, 0 <= k;
}

} // verus!
