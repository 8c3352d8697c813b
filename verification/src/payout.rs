//! The payout calculator: from a pool, a number of winners and a rank to an amount.
//!
//! Every amount is the floor of `pool * bps / 10000`, computed in 128 bits so that the
//! product cannot overflow. What the floors leave over stays in the vault.

use vstd::prelude::*;
use crate::constants::{
    BPS_DENOMINATOR, FIRST_PLACE_BPS, PAIR_FIRST_BPS, PAIR_SECOND_BPS, PLATFORM_FEE_BPS,
    SECOND_PLACE_BPS, SOLE_WINNER_BPS, THIRD_PLACE_BPS,
};
use crate::error::GorbageError;

verus! {

/// The share, in basis points, of `rank` among `winner_count` winners; `None` where the
/// payout table has no such entry.
pub open spec fn placement_bps(winner_count: int, rank: int) -> Option<int> {
    if winner_count == 1 && rank == 1 {
        Some(10000)
    } else if winner_count == 2 && rank == 1 {
        Some(6000)
    } else if winner_count == 2 && rank == 2 {
        Some(4000)
    } else if winner_count == 3 && rank == 1 {
        Some(5000)
    } else if winner_count == 3 && rank == 2 {
        Some(3000)
    } else if winner_count == 3 && rank == 3 {
        Some(2000)
    } else {
        None
    }
}

/// `floor(pool * bps / 10000)`.
pub open spec fn share_of(pool: int, bps: int) -> int {
    (pool * bps) / 10000
}

/// The amount payable to `rank` among `winner_count` winners of `pool`; zero where the
/// table has no such entry.
pub open spec fn prize_of(pool: int, winner_count: int, rank: int) -> int {
    match placement_bps(winner_count, rank) {
        Some(bps) => share_of(pool, bps),
        None => 0,
    }
}

/// The sum of the amounts payable to all `winner_count` ranks.
pub open spec fn total_prizes(pool: int, winner_count: int) -> int {
    prize_of(pool, winner_count, 1) + prize_of(pool, winner_count, 2) + prize_of(
        pool,
        winner_count,
        3,
    )
}

/// The platform fee owed on `pool`: `floor(pool * 2000 / 10000)`.
pub open spec fn fee_of(pool: int) -> int {
    share_of(pool, 2000)
}

/// The share of `placement` among `winner_count` winners, from the table.
pub fn placement_share(winner_count: u8, placement: u8) -> (bps: Option<u64>)
    ensures
        match placement_bps(winner_count as int, placement as int) {
            Some(b) => bps == Some(b as u64),
            None => bps is None,
        },
{
    if winner_count == 1 && placement == 1 {
        Some(SOLE_WINNER_BPS)
    } else if winner_count == 2 && placement == 1 {
        Some(PAIR_FIRST_BPS)
    } else if winner_count == 2 && placement == 2 {
        Some(PAIR_SECOND_BPS)
    } else if winner_count == 3 && placement == 1 {
        Some(FIRST_PLACE_BPS)
    } else if winner_count == 3 && placement == 2 {
        Some(SECOND_PLACE_BPS)
    } else if winner_count == 3 && placement == 3 {
        Some(THIRD_PLACE_BPS)
    } else {
        None
    }
}

/// `floor(amount * bps / 10000)` for a share of at most one hundred percent.
fn apply_bps(amount: u64, bps: u64) -> (part: u64)
    requires
        bps <= BPS_DENOMINATOR,
    ensures
        part == share_of(amount as int, bps as int),
        part <= amount,
{
    let wide: u128 = amount as u128;
    let factor: u128 = bps as u128;
    assert(wide * factor <= wide * 10000) by (nonlinear_arith)
        requires
            factor <= 10000,
            wide >= 0,
    ;
    let product: u128 = wide * factor;
    let denominator: u128 = BPS_DENOMINATOR as u128;
    let quotient: u128 = product / denominator;
    quotient as u64
}

/// The amount payable to `placement` among `winner_count` winners of `prize_pool`.
///
/// Fails with `InvalidPlacement` exactly when the payout table has no entry for the
/// pair, which includes every `winner_count` other than 1, 2 and 3.
pub fn calculate_prize(prize_pool: u64, placement: u8, winner_count: u8) -> (result: Result<
    u64,
    GorbageError,
>)
    ensures
        match placement_bps(winner_count as int, placement as int) {
            Some(bps) => result == Ok::<u64, GorbageError>(
                share_of(prize_pool as int, bps) as u64,
            ),
            None => result == Err::<u64, GorbageError>(GorbageError::InvalidPlacement),
        },
        result is Ok ==> result->Ok_0 == prize_of(
            prize_pool as int,
            winner_count as int,
            placement as int,
        ),
        result is Ok ==> result->Ok_0 <= prize_pool,
{
    match placement_share(winner_count, placement) {
        Some(bps) => Ok(apply_bps(prize_pool, bps)),
        None => Err(GorbageError::InvalidPlacement),
    }
}

/// The platform fee owed on `pool`.
pub fn platform_fee(pool: u64) -> (fee: u64)
    ensures
        fee == fee_of(pool as int),
        fee <= pool,
{
    apply_bps(pool, PLATFORM_FEE_BPS)
}

/// A share never exceeds the amount it is taken from, and is never negative.
pub proof fn lemma_share_bounds(pool: int, bps: int)
    requires
        0 <= pool,
        0 <= bps <= 10000,
    ensures
        0 <= share_of(pool, bps) <= pool,
{
    assert(0 <= pool * bps <= pool * 10000) by (nonlinear_arith)
        requires
            0 <= pool,
            0 <= bps <= 10000,
    ;
}

/// The payouts of three winners are `floor(pool/2)`, `floor(pool*3/10)` and
/// `floor(pool/5)`; together they never exceed the pool, and they leave at most two
/// units unpaid.
pub proof fn lemma_three_winner_payouts(pool: int)
    requires
        0 <= pool,
    ensures
        prize_of(pool, 3, 1) == (pool * 5000) / 10000,
        prize_of(pool, 3, 2) == (pool * 3000) / 10000,
        prize_of(pool, 3, 3) == (pool * 2000) / 10000,
        total_prizes(pool, 3) <= pool,
        0 <= pool - total_prizes(pool, 3) <= 2,
{
}

/// For every number of winners in the table the payouts together never exceed the
/// pool, and what they leave unpaid is less than the number of winners.
pub proof fn lemma_payouts_within_pool(pool: int, winner_count: int)
    requires
        0 <= pool,
        1 <= winner_count <= 3,
    ensures
        0 <= total_prizes(pool, winner_count) <= pool,
        pool - total_prizes(pool, winner_count) < winner_count,
{
}

/// The fee and what is left after it make up the pool again.
pub proof fn lemma_fee_within_pool(pool: int)
    requires
        0 <= pool,
    ensures
        0 <= fee_of(pool) <= pool,
        pool > 0 ==> fee_of(pool) < pool,
{
}

} // verus!
