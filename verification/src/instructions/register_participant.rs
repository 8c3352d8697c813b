//! Registration: a wallet pays the entry fee into the vault and joins the season.

use vstd::prelude::*;
use crate::error::GorbageError;
use crate::identity::Identity;
use crate::state::participant::Participant;
use crate::state::season::Season;
use crate::vault::Vault;

verus! {

/// Why a registration at time `now` is refused, if it is. The conditions are tested
/// in this order: window and status, capacity, an existing record, overflow.
pub open spec fn refusal(season: Season, vault: Vault, already_registered: bool, now: int) -> Option<
    GorbageError,
> {
    if !season.registration_open_at(now) {
        Some(GorbageError::StateConflict)
    } else if season.participant_count >= season.max_participants {
        Some(GorbageError::CapacityExceeded)
    } else if already_registered {
        Some(GorbageError::DuplicateRegistration)
    } else if vault.balance + season.entry_fee > u64::MAX || season.pool_balance + season.entry_fee
        > u64::MAX {
        Some(GorbageError::ArithmeticOverflow)
    } else {
        None
    }
}

/// The season after one more registration.
pub open spec fn season_after(season: Season) -> Season {
    Season {
        pool_balance: (season.pool_balance + season.entry_fee) as u64,
        participant_count: (season.participant_count + 1) as u32,
        ..season
    }
}

/// The vault after one more entry fee.
pub open spec fn vault_after(season: Season, vault: Vault) -> Vault {
    Vault { balance: (vault.balance + season.entry_fee) as u64, ..vault }
}

/// Registers `caller` in `season` at time `now`.
///
/// `already_registered` says whether a record for this wallet in this season
/// exists. On success the entry fee is credited to the vault and to the pool, the
/// participant count goes up by one, and the new record is returned. A refusal
/// changes neither the season nor the vault.
pub fn handler(
    season: &mut Season,
    vault: &mut Vault,
    already_registered: bool,
    caller: Identity,
    now: i64,
) -> (result: Result<Participant, GorbageError>)
    ensures
        old(vault).balance == old(season).pool_balance ==> final(vault).balance
            == final(season).pool_balance,
        already_registered ==> result is Err,
        match refusal(*old(season), *old(vault), already_registered, now as int) {
            Some(e) => {
                &&& result == Err::<Participant, GorbageError>(e)
                &&& *final(season) == *old(season)
                &&& *final(vault) == *old(vault)
            },
            None => {
                &&& result == Ok::<Participant, GorbageError>(
                    Participant::fresh(old(season).season_id, caller, now, old(season).entry_fee),
                )
                &&& *final(season) == season_after(*old(season))
                &&& *final(vault) == vault_after(*old(season), *old(vault))
            },
        },
{
    if !season.is_registration_open(now) {
        return Err(GorbageError::StateConflict);
    }
    if season.participant_count >= season.max_participants {
        return Err(GorbageError::CapacityExceeded);
    }
    if already_registered {
        return Err(GorbageError::DuplicateRegistration);
    }
    let entry_fee: u64 = season.entry_fee;
    let new_pool: u64 = match season.pool_balance.checked_add(entry_fee) {
        Some(sum) => sum,
        None => { return Err(GorbageError::ArithmeticOverflow); },
    };
    let new_count: u32 = match season.participant_count.checked_add(1) {
        Some(sum) => sum,
        None => { return Err(GorbageError::ArithmeticOverflow); },
    };
    match vault.deposit(entry_fee) {
        Ok(()) => {},
        Err(e) => { return Err(e); },
    }
    season.pool_balance = new_pool;
    season.participant_count = new_count;
    Ok(Participant::new(season.season_id, caller, now, entry_fee))
}

} // verus!
