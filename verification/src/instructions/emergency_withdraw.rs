//! Emergency withdrawal: a participant takes the whole entry fee back.

use vstd::prelude::*;
use crate::error::GorbageError;
use crate::identity::Identity;
use crate::state::participant::Participant;
use crate::state::season::Season;
use crate::vault::Vault;

verus! {

/// Why a withdrawal is refused, if it is. The conditions are tested in this order:
/// the emergency flag, the record belongs to the season, the caller owns the record,
/// no refund yet, no winning rank, the vault and the pool cover the refund.
pub open spec fn refusal(
    season: Season,
    participant: Participant,
    vault: Vault,
    caller: Identity,
) -> Option<GorbageError> {
    if !season.emergency_active {
        Some(GorbageError::StateConflict)
    } else if participant.season_id != season.season_id {
        Some(GorbageError::NotRegistered)
    } else if caller != participant.wallet {
        Some(GorbageError::Unauthorized)
    } else if participant.emergency_withdrawn {
        Some(GorbageError::PrizeAlreadyClaimed)
    } else if participant.rank > 0 {
        Some(GorbageError::StateConflict)
    } else if vault.balance < participant.entry_fee_paid {
        Some(GorbageError::InsufficientFunds)
    } else if season.pool_balance < participant.entry_fee_paid {
        Some(GorbageError::ArithmeticOverflow)
    } else {
        None
    }
}

/// The season after `participant` has been refunded.
pub open spec fn season_after(season: Season, participant: Participant) -> Season {
    Season {
        pool_balance: (season.pool_balance - participant.entry_fee_paid) as u64,
        ..season
    }
}

/// The record of `participant` after the refund.
pub open spec fn participant_after(participant: Participant) -> Participant {
    Participant { emergency_withdrawn: true, ..participant }
}

/// The vault after `participant` has been refunded.
pub open spec fn vault_after(vault: Vault, participant: Participant) -> Vault {
    Vault { balance: (vault.balance - participant.entry_fee_paid) as u64, ..vault }
}

/// Refunds the entry fee that `participant` paid, in full and whatever fee has been
/// collected, and marks the record as refunded; returns the amount, which the
/// caller of this function owes to the participant. The vault and the pool go down
/// by that amount. A refusal changes no record.
pub fn handler(
    season: &mut Season,
    participant: &mut Participant,
    vault: &mut Vault,
    caller: &Identity,
) -> (result: Result<u64, GorbageError>)
    ensures
        old(vault).balance == old(season).pool_balance ==> final(vault).balance
            == final(season).pool_balance,
        old(participant).emergency_withdrawn ==> result is Err,
        match refusal(*old(season), *old(participant), *old(vault), *caller) {
            Some(e) => {
                &&& result == Err::<u64, GorbageError>(e)
                &&& *final(season) == *old(season)
                &&& *final(participant) == *old(participant)
                &&& *final(vault) == *old(vault)
            },
            None => {
                &&& result == Ok::<u64, GorbageError>(old(participant).entry_fee_paid)
                &&& *final(season) == season_after(*old(season), *old(participant))
                &&& *final(participant) == participant_after(*old(participant))
                &&& *final(vault) == vault_after(*old(vault), *old(participant))
            },
        },
{
    if !season.emergency_active {
        return Err(GorbageError::StateConflict);
    }
    if participant.season_id != season.season_id {
        return Err(GorbageError::NotRegistered);
    }
    if !caller.same(&participant.wallet) {
        return Err(GorbageError::Unauthorized);
    }
    if participant.emergency_withdrawn {
        return Err(GorbageError::PrizeAlreadyClaimed);
    }
    if participant.is_winner() {
        return Err(GorbageError::StateConflict);
    }
    let refund: u64 = participant.entry_fee_paid;
    if vault.balance < refund {
        return Err(GorbageError::InsufficientFunds);
    }
    let new_pool: u64 = match season.pool_balance.checked_sub(refund) {
        Some(rest) => rest,
        None => { return Err(GorbageError::ArithmeticOverflow); },
    };
    match vault.withdraw(refund) {
        Ok(()) => {},
        Err(e) => { return Err(e); },
    }
    season.pool_balance = new_pool;
    participant.emergency_withdrawn = true;
    Ok(refund)
}

/// An entry fee is refunded once: after a withdrawal that went through, every
/// further withdrawal on the same record is refused with `PrizeAlreadyClaimed`
/// while the emergency lasts, whatever the vault holds.
pub proof fn lemma_refund_is_final(
    season: Season,
    participant: Participant,
    vault: Vault,
    caller: Identity,
    later_vault: Vault,
)
    requires
        refusal(season, participant, vault, caller) is None,
    ensures
        refusal(
            season_after(season, participant),
            participant_after(participant),
            later_vault,
            caller,
        ) == Some(GorbageError::PrizeAlreadyClaimed),
{
}

} // verus!
