//! Winner assignment: ranks and the amounts they pay are frozen.

use vstd::prelude::*;
use crate::constants::MAX_WINNERS;
use crate::error::GorbageError;
use crate::identity::Identity;
use crate::payout::{calculate_prize, prize_of};
use crate::state::participant::Participant;
use crate::state::season::{Season, SeasonStatus, Winner};

verus! {

/// The winner entry for the wallet at position `k` of `wallets`: rank `k + 1`, and
/// the amount which that rank pays out of `pool` among `wallets.len()` winners.
pub open spec fn winner_at(wallets: Seq<Identity>, pool: int, k: int) -> Winner {
    Winner {
        wallet: wallets[k],
        rank: (k + 1) as u8,
        payable_amount: prize_of(pool, wallets.len() as int, k + 1) as u64,
    }
}

/// The winner entries for `wallets`, in rank order.
pub open spec fn ranked_winners(wallets: Seq<Identity>, pool: int) -> Seq<Winner> {
    Seq::new(wallets.len(), |k: int| winner_at(wallets, pool, k))
}

/// Why assigning winners at time `now` is refused, if it is. The conditions are
/// tested in this order: the caller is the authority or the oracle, the season is
/// over, winners are not assigned yet, one to three winners are named.
pub open spec fn refusal(season: Season, caller: Identity, wallets: Seq<Identity>, now: int) -> Option<
    GorbageError,
> {
    if caller != season.authority && season.oracle != Some(caller) {
        Some(GorbageError::Unauthorized)
    } else if now <= season.season_end {
        Some(GorbageError::StateConflict)
    } else if season.winners_set {
        Some(GorbageError::WinnersAlreadySet)
    } else if wallets.len() < 1 || wallets.len() > 3 {
        Some(GorbageError::InvalidWinnerCount)
    } else {
        None
    }
}

/// Tests the conditions of [`handler`] without changing anything.
pub fn check(season: &Season, caller: &Identity, ranked_wallets: &Vec<Identity>, now: i64) -> (verdict:
    Option<GorbageError>)
    ensures
        verdict == refusal(*season, *caller, ranked_wallets@, now as int),
{
    if !season.is_authority(caller) && !season.is_oracle(caller) {
        return Some(GorbageError::Unauthorized);
    }
    if !season.has_ended(now) {
        return Some(GorbageError::StateConflict);
    }
    if season.winners_set {
        return Some(GorbageError::WinnersAlreadySet);
    }
    let count: usize = ranked_wallets.len();
    if count < 1 || count > MAX_WINNERS {
        return Some(GorbageError::InvalidWinnerCount);
    }
    None
}

/// Records `ranked_wallets` as the season's winners, first place first, each with
/// the amount that its rank pays out of the pool as it stands now, and moves the
/// season to `WinnersSet`. Whether the wallets have records in the season is not
/// looked at here: that is for the one who holds the records. A refusal changes
/// nothing.
pub fn handler(
    season: &mut Season,
    caller: &Identity,
    ranked_wallets: &Vec<Identity>,
    now: i64,
) -> (result: Result<(), GorbageError>)
    ensures
        match refusal(*old(season), *caller, ranked_wallets@, now as int) {
            Some(e) => result == Err::<(), GorbageError>(e) && *final(season) == *old(season),
            None => {
                &&& result is Ok
                &&& final(season).winners@ == ranked_winners(
                    ranked_wallets@,
                    old(season).pool_balance as int,
                )
                &&& *final(season) == (Season {
                    winners: final(season).winners,
                    winners_set: true,
                    status: SeasonStatus::WinnersSet,
                    ..*old(season)
                })
            },
        },
{
    match check(season, caller, ranked_wallets, now) {
        Some(e) => { return Err(e); },
        None => {},
    }
    let count: usize = ranked_wallets.len();
    let pool: u64 = season.pool_balance;
    let mut winners: Vec<Winner> = Vec::new();
    let mut k: usize = 0;
    while k < count
        invariant
            1 <= count <= 3,
            count == ranked_wallets@.len(),
            k <= count,
            winners@.len() == k,
            forall|j: int| 0 <= j < k ==> winners@[j] == winner_at(ranked_wallets@, pool as int, j),
        decreases count - k,
    {
        let rank: u8 = (k + 1) as u8;
        let amount: u64 = match calculate_prize(pool, rank, count as u8) {
            Ok(amount) => amount,
            Err(e) => { return Err(e); },
        };
        winners.push(Winner { wallet: ranked_wallets[k], rank, payable_amount: amount });
        k = k + 1;
    }
    season.winners = winners;
    season.winners_set = true;
    season.status = SeasonStatus::WinnersSet;
    Ok(())
}

/// Why writing a prize into a participant's record is refused, if it is. The
/// conditions are tested in this order: the caller is the authority or the oracle, winners are
/// assigned, the record belongs to the season, the placement is one of the
/// season's ranks, the season's winner of that rank is this participant.
pub open spec fn prize_refusal(
    season: Season,
    participant: Participant,
    caller: Identity,
    placement: int,
) -> Option<GorbageError> {
    if caller != season.authority && season.oracle != Some(caller) {
        Some(GorbageError::Unauthorized)
    } else if !season.winners_set {
        Some(GorbageError::WinnersNotSet)
    } else if participant.season_id != season.season_id {
        Some(GorbageError::NotRegistered)
    } else if placement < 1 || placement > season.winners@.len() {
        Some(GorbageError::InvalidPlacement)
    } else if season.winners@[placement - 1].wallet != participant.wallet {
        Some(GorbageError::NotAWinner)
    } else {
        None
    }
}

/// Writes rank `placement`, and the amount frozen for it in the season, into the
/// record of the participant who holds that rank. A refusal changes nothing.
pub fn set_winner_prize(
    season: &Season,
    participant: &mut Participant,
    caller: &Identity,
    placement: u8,
) -> (result: Result<(), GorbageError>)
    ensures
        match prize_refusal(*season, *old(participant), *caller, placement as int) {
            Some(e) => result == Err::<(), GorbageError>(e) && *final(participant) == *old(participant),
            None => result is Ok && *final(participant) == (Participant {
                rank: placement,
                payable_amount: season.winners@[placement - 1].payable_amount,
                ..*old(participant)
            }),
        },
{
    if !season.is_authority(caller) && !season.is_oracle(caller) {
        return Err(GorbageError::Unauthorized);
    }
    if !season.winners_set {
        return Err(GorbageError::WinnersNotSet);
    }
    if participant.season_id != season.season_id {
        return Err(GorbageError::NotRegistered);
    }
    if placement < 1 || placement as usize > season.winners.len() {
        return Err(GorbageError::InvalidPlacement);
    }
    let index: usize = (placement - 1) as usize;
    let winner: Winner = season.winners[index];
    if !winner.wallet.same(&participant.wallet) {
        return Err(GorbageError::NotAWinner);
    }
    participant.rank = placement;
    participant.payable_amount = winner.payable_amount;
    Ok(())
}

} // verus!
