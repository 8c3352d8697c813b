//! Fee collection: the platform's share is skimmed from the pool, once.

use vstd::prelude::*;
use crate::error::GorbageError;
use crate::identity::Identity;
use crate::payout::{fee_of, platform_fee};
use crate::state::season::Season;
use crate::vault::Vault;

verus! {

/// Why collecting the fee at time `now` is refused, if it is. The conditions are
/// tested in this order: the caller, a fee already taken, the registration window,
/// an empty pool, a vault that cannot cover the fee.
pub open spec fn refusal(season: Season, vault: Vault, caller: Identity, now: int) -> Option<
    GorbageError,
> {
    if caller != season.authority {
        Some(GorbageError::Unauthorized)
    } else if season.fee_collected {
        Some(GorbageError::FeeAlreadyCollected)
    } else if now <= season.registration_end {
        Some(GorbageError::StateConflict)
    } else if season.pool_balance == 0 {
        Some(GorbageError::InsufficientFunds)
    } else if vault.balance < fee_of(season.pool_balance as int) {
        Some(GorbageError::InsufficientVaultFunds)
    } else {
        None
    }
}

/// The season after its fee has been taken.
pub open spec fn season_after(season: Season) -> Season {
    Season {
        pool_balance: (season.pool_balance - fee_of(season.pool_balance as int)) as u64,
        fee_collected: true,
        fee_amount: fee_of(season.pool_balance as int) as u64,
        ..season
    }
}

/// The vault after the fee has left it.
pub open spec fn vault_after(season: Season, vault: Vault) -> Vault {
    Vault { balance: (vault.balance - fee_of(season.pool_balance as int)) as u64, ..vault }
}

/// Skims the platform fee, `floor(pool * 2000 / 10000)`, from the season's pool and
/// vault and returns it; the caller of this function owes that amount to the
/// treasury. A refusal changes neither the season nor the vault.
pub fn handler(season: &mut Season, vault: &mut Vault, caller: &Identity, now: i64) -> (result:
    Result<u64, GorbageError>)
    ensures
        old(vault).balance == old(season).pool_balance ==> final(vault).balance
            == final(season).pool_balance,
        old(season).fee_collected ==> result is Err,
        match refusal(*old(season), *old(vault), *caller, now as int) {
            Some(e) => {
                &&& result == Err::<u64, GorbageError>(e)
                &&& *final(season) == *old(season)
                &&& *final(vault) == *old(vault)
            },
            None => {
                &&& result == Ok::<u64, GorbageError>(fee_of(old(season).pool_balance as int) as u64)
                &&& *final(season) == season_after(*old(season))
                &&& *final(vault) == vault_after(*old(season), *old(vault))
            },
        },
{
    if !season.is_authority(caller) {
        return Err(GorbageError::Unauthorized);
    }
    if season.fee_collected {
        return Err(GorbageError::FeeAlreadyCollected);
    }
    if now <= season.registration_end {
        return Err(GorbageError::StateConflict);
    }
    if season.pool_balance == 0 {
        return Err(GorbageError::InsufficientFunds);
    }
    let fee: u64 = platform_fee(season.pool_balance);
    match vault.withdraw(fee) {
        Ok(()) => {},
        Err(_) => { return Err(GorbageError::InsufficientVaultFunds); },
    }
    season.pool_balance = season.pool_balance - fee;
    season.fee_collected = true;
    season.fee_amount = fee;
    Ok(fee)
}

/// The fee is taken once: after a collection that went through, every further
/// collection by the authority is refused with `FeeAlreadyCollected`, at any time
/// and whatever the vault holds.
pub proof fn lemma_fee_is_taken_once(
    season: Season,
    vault: Vault,
    caller: Identity,
    now: int,
    later_vault: Vault,
    later: int,
)
    requires
        refusal(season, vault, caller, now) is None,
    ensures
        season_after(season).pool_balance + season_after(season).fee_amount
            == season.pool_balance,
        refusal(season_after(season), later_vault, caller, later) == Some(
            GorbageError::FeeAlreadyCollected,
        ),
{
}

} // verus!
