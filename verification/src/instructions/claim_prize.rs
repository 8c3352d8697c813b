//! Prize claims: a winner takes the amount frozen for their rank, once.

use vstd::prelude::*;
use crate::error::GorbageError;
use crate::identity::Identity;
use crate::state::participant::Participant;
use crate::state::season::Season;
use crate::vault::Vault;

verus! {

/// Why a claim is refused, if it is. The conditions are tested in this order: the
/// caller owns the record, the record belongs to the season, winners are assigned,
/// the participant is ranked, nothing was claimed yet, the rank pays something, the
/// vault and the pool cover the amount.
pub open spec fn refusal(
    season: Season,
    participant: Participant,
    vault: Vault,
    caller: Identity,
) -> Option<GorbageError> {
    if caller != participant.wallet {
        Some(GorbageError::Unauthorized)
    } else if participant.season_id != season.season_id {
        Some(GorbageError::NotRegistered)
    } else if !season.winners_set {
        Some(GorbageError::WinnersNotSet)
    } else if participant.rank == 0 {
        Some(GorbageError::NotAWinner)
    } else if participant.claimed {
        Some(GorbageError::PrizeAlreadyClaimed)
    } else if participant.payable_amount == 0 {
        Some(GorbageError::InvalidPlacement)
    } else if vault.balance < participant.payable_amount {
        Some(GorbageError::InsufficientVaultFunds)
    } else if season.pool_balance < participant.payable_amount {
        Some(GorbageError::ArithmeticOverflow)
    } else {
        None
    }
}

/// The season after `participant` has been paid.
pub open spec fn season_after(season: Season, participant: Participant) -> Season {
    Season {
        pool_balance: (season.pool_balance - participant.payable_amount) as u64,
        ..season
    }
}

/// The record of `participant` after the claim.
pub open spec fn participant_after(participant: Participant) -> Participant {
    Participant { claimed: true, ..participant }
}

/// The vault after `participant` has been paid.
pub open spec fn vault_after(vault: Vault, participant: Participant) -> Vault {
    Vault { balance: (vault.balance - participant.payable_amount) as u64, ..vault }
}

/// Pays `participant` the amount frozen for their rank and marks the record as
/// claimed, in one step; returns the amount, which the caller of this function owes
/// to the winner. The vault and the pool go down by that amount. A refusal changes
/// no record.
pub fn handler(
    season: &mut Season,
    participant: &mut Participant,
    vault: &mut Vault,
    caller: &Identity,
) -> (result: Result<u64, GorbageError>)
    ensures
        old(vault).balance == old(season).pool_balance ==> final(vault).balance
            == final(season).pool_balance,
        old(participant).claimed ==> result is Err,
        result is Ok ==> final(participant).claimed && final(participant).payable_amount > 0,
        match refusal(*old(season), *old(participant), *old(vault), *caller) {
            Some(e) => {
                &&& result == Err::<u64, GorbageError>(e)
                &&& *final(season) == *old(season)
                &&& *final(participant) == *old(participant)
                &&& *final(vault) == *old(vault)
            },
            None => {
                &&& result == Ok::<u64, GorbageError>(old(participant).payable_amount)
                &&& *final(season) == season_after(*old(season), *old(participant))
                &&& *final(participant) == participant_after(*old(participant))
                &&& *final(vault) == vault_after(*old(vault), *old(participant))
            },
        },
{
    if !caller.same(&participant.wallet) {
        return Err(GorbageError::Unauthorized);
    }
    if participant.season_id != season.season_id {
        return Err(GorbageError::NotRegistered);
    }
    if !season.winners_set {
        return Err(GorbageError::WinnersNotSet);
    }
    if !participant.is_winner() {
        return Err(GorbageError::NotAWinner);
    }
    if participant.claimed {
        return Err(GorbageError::PrizeAlreadyClaimed);
    }
    let amount: u64 = participant.payable_amount;
    if amount == 0 {
        return Err(GorbageError::InvalidPlacement);
    }
    if vault.balance < amount {
        return Err(GorbageError::InsufficientVaultFunds);
    }
    let new_pool: u64 = match season.pool_balance.checked_sub(amount) {
        Some(rest) => rest,
        None => { return Err(GorbageError::ArithmeticOverflow); },
    };
    match vault.withdraw(amount) {
        Ok(()) => {},
        Err(_) => { return Err(GorbageError::InsufficientVaultFunds); },
    }
    season.pool_balance = new_pool;
    participant.claimed = true;
    Ok(amount)
}

/// A prize is paid once: after a claim that went through, every further claim on
/// the same record is refused with `PrizeAlreadyClaimed`, whatever the vault holds.
pub proof fn lemma_claim_is_final(
    season: Season,
    participant: Participant,
    vault: Vault,
    caller: Identity,
    later_vault: Vault,
)
    requires
        refusal(season, participant, vault, caller) is None,
    ensures
        participant_after(participant).payable_amount > 0,
        refusal(
            season_after(season, participant),
            participant_after(participant),
            later_vault,
            caller,
        ) == Some(GorbageError::PrizeAlreadyClaimed),
{
}

} // verus!
