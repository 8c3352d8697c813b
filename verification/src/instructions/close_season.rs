//! Closing: what is left in the vault goes back to the authority and the season ends.

use vstd::prelude::*;
use crate::error::GorbageError;
use crate::identity::Identity;
use crate::state::season::{Season, SeasonStatus};
use crate::vault::Vault;

verus! {

/// Why closing is refused, if it is. The conditions are tested in this order: the
/// caller, winners assigned, a season that is not running.
pub open spec fn refusal(season: Season, caller: Identity) -> Option<GorbageError> {
    if caller != season.authority {
        Some(GorbageError::Unauthorized)
    } else if !season.winners_set {
        Some(GorbageError::WinnersNotSet)
    } else if season.status == SeasonStatus::Active {
        Some(GorbageError::StateConflict)
    } else {
        None
    }
}

/// Closes the season: empties the vault, zeroes the pool and moves the season to
/// its terminal state. Returns what the vault held, which the caller of this
/// function owes to the authority. A refusal changes neither record.
pub fn handler(season: &mut Season, vault: &mut Vault, caller: &Identity) -> (result: Result<
    u64,
    GorbageError,
>)
    ensures
        old(vault).balance == old(season).pool_balance ==> final(vault).balance
            == final(season).pool_balance,
        match refusal(*old(season), *caller) {
            Some(e) => {
                &&& result == Err::<u64, GorbageError>(e)
                &&& *final(season) == *old(season)
                &&& *final(vault) == *old(vault)
            },
            None => {
                &&& result == Ok::<u64, GorbageError>(old(vault).balance)
                &&& *final(season) == (Season {
                    pool_balance: 0,
                    status: SeasonStatus::Finalized,
                    ..*old(season)
                })
                &&& *final(vault) == (Vault { balance: 0, ..*old(vault) })
            },
        },
{
    if !season.is_authority(caller) {
        return Err(GorbageError::Unauthorized);
    }
    if !season.winners_set {
        return Err(GorbageError::WinnersNotSet);
    }
    if season.status == SeasonStatus::Active {
        return Err(GorbageError::StateConflict);
    }
    let swept: u64 = vault.drain();
    season.pool_balance = 0;
    season.status = SeasonStatus::Finalized;
    Ok(swept)
}

} // verus!
