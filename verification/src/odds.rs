//! Implied odds and pool distribution, in fixed point.

use vstd::prelude::*;

verus! {

/// Scale of the fixed-point odds: 1000 stands for 1.0x.
pub const ODDS_SCALE: u64 = 1000;

/// Implied odds of one side of a pool, scaled by [`ODDS_SCALE`]:
/// even odds while nothing is staked on the side, else the pool divided by
/// the stake on the side, rounded down.
pub open spec fn odds_of(total_pool: nat, bets_on_player: nat) -> nat {
    if bets_on_player == 0 {
        1000
    } else {
        (total_pool * 1000) / bets_on_player
    }
}

/// Implied odds of one side, from the whole pool and the stake on that side.
pub fn calculate_odds(total_pool: u64, bets_on_player: u64) -> (odds: u64)
    requires
        odds_of(total_pool as nat, bets_on_player as nat) <= u64::MAX,
    ensures
        odds == odds_of(total_pool as nat, bets_on_player as nat),
        bets_on_player == 0 ==> odds == 1000,
        bets_on_player > 0 ==> odds == (total_pool * 1000) / (bets_on_player as int),
{
    if bets_on_player == 0 {
        return ODDS_SCALE;
    }
    let scaled: u128 = (total_pool as u128) * 1000;
    let quotient: u128 = scaled / (bets_on_player as u128);
    quotient as u64
}

/// Implied odds of one side, or `None` where they are more than the field
/// of a match can hold.
pub fn checked_odds(total_pool: u64, bets_on_player: u64) -> (odds: Option<u64>)
    ensures
        odds == if odds_of(total_pool as nat, bets_on_player as nat) <= u64::MAX {
            Some(odds_of(total_pool as nat, bets_on_player as nat) as u64)
        } else {
            None
        },
{
    if bets_on_player == 0 {
        return Some(ODDS_SCALE);
    }
    let scaled: u128 = (total_pool as u128) * 1000;
    let quotient: u128 = scaled / (bets_on_player as u128);
    if quotient <= u64::MAX as u128 {
        Some(quotient as u64)
    } else {
        None
    }
}

} // verus!
