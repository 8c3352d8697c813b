//! A season with what it owns, and what the lifecycle operations make of it.

use vstd::prelude::*;
use crate::accounting::{lemma_sums_agree, reconciles};
use crate::error::GorbageError;
use crate::identity::Identity;
use crate::instructions::{
    claim_prize, collect_fee, emergency_withdraw, register_participant, set_winners,
    update_season_timings,
};
use crate::ledger::{
    all_registered, assign_ranks, distinct_wallets, find_participant, is_registered,
    lemma_assign_ranks_keeps_the_rest, position_of_wallet, records_kept, with_prize,
};
use crate::state::participant::Participant;
use crate::state::season::{Season, SeasonStatus};
use crate::vault::Vault;

verus! {

/// A season together with what it owns: its vault and its participants' records.
pub struct SeasonAccount {
    pub season: Season,
    pub vault: Vault,
    pub participants: Vec<Participant>,
}

impl SeasonAccount {
    /// What holds of every season between operations: the records are valid and
    /// belong together, the vault holds exactly the pool, the pool is what the
    /// participants' records account for, there is one record per registered
    /// wallet, and nobody is ranked before winners are assigned.
    pub open spec fn wf(&self) -> bool {
        &&& self.season.wf()
        &&& self.season.status != SeasonStatus::Finalized
        &&& self.vault.season_id == self.season.season_id
        &&& self.vault.balance == self.season.pool_balance
        &&& reconciles(
            self.season.pool_balance as int,
            self.season.fee_amount as int,
            self.participants@,
        )
        &&& self.participants@.len() == self.season.participant_count
        &&& distinct_wallets(self.participants@)
        &&& forall|i: int|
            0 <= i < self.participants@.len() ==> {
                &&& (#[trigger] self.participants@[i]).wf()
                &&& self.participants@[i].season_id == self.season.season_id
                &&& !self.season.winners_set ==> self.participants@[i].rank == 0
            }
    }

    /// What holds of a season across every operation that keeps it: it keeps its
    /// id, its authority, its oracle, its name, its entry fee and its capacity;
    /// its records continue the earlier ones; a fee once taken, winners once
    /// assigned and an emergency once declared stay as they are.
    pub open spec fn follows(&self, before: SeasonAccount) -> bool {
        &&& self.season.season_id == before.season.season_id
        &&& self.vault.season_id == before.vault.season_id
        &&& self.season.authority == before.season.authority
        &&& self.season.oracle == before.season.oracle
        &&& self.season.name == before.season.name
        &&& self.season.entry_fee == before.season.entry_fee
        &&& self.season.max_participants == before.season.max_participants
        &&& self.season.registration_start == before.season.registration_start
        &&& records_kept(before.participants@, self.participants@)
        &&& before.season.fee_collected ==> self.season.fee_collected && self.season.fee_amount
            == before.season.fee_amount
        &&& before.season.winners_set ==> self.season.winners_set && self.season.winners@
            == before.season.winners@
        &&& before.season.emergency_active ==> self.season.emergency_active
    }

    /// Whether `self` is `before` after `caller` has registered at time `now`: the
    /// entry fee is in vault and pool, the count is up by one, and the caller's
    /// fresh record is the last one.
    pub open spec fn registered(&self, before: SeasonAccount, caller: Identity, now: i64) -> bool {
        &&& self.season == register_participant::season_after(before.season)
        &&& self.vault == register_participant::vault_after(before.season, before.vault)
        &&& self.participants@ == before.participants@.push(
            Participant::fresh(before.season.season_id, caller, now, before.season.entry_fee),
        )
    }

    /// Whether `self` is `before` after the platform fee has been taken.
    pub open spec fn fee_taken(&self, before: SeasonAccount) -> bool {
        &&& self.season == collect_fee::season_after(before.season)
        &&& self.vault == collect_fee::vault_after(before.season, before.vault)
        &&& self.participants@ == before.participants@
    }

    /// Whether `self` is `before` after `wallets` have been made its winners,
    /// first place first: the amounts are frozen over the pool of `before`, the
    /// season has moved to `WinnersSet`, and ranks and amounts are in the records.
    pub open spec fn winners_assigned(&self, before: SeasonAccount, wallets: Seq<Identity>) -> bool {
        let winners = set_winners::ranked_winners(wallets, before.season.pool_balance as int);
        &&& self.vault == before.vault
        &&& self.season.winners@ == winners
        &&& self.season == (Season {
            winners: self.season.winners,
            winners_set: true,
            status: SeasonStatus::WinnersSet,
            ..before.season
        })
        &&& self.participants@ == assign_ranks(before.participants@, winners, winners.len() as int)
    }

    /// Whether `self` is `before` after `caller` has been paid their prize: vault
    /// and pool are down by the amount, and the caller's record is marked.
    pub open spec fn prize_claimed(&self, before: SeasonAccount, caller: Identity) -> bool {
        let slot = position_of_wallet(before.participants@, caller);
        let record = before.participants@[slot];
        &&& self.season == claim_prize::season_after(before.season, record)
        &&& self.vault == claim_prize::vault_after(before.vault, record)
        &&& self.participants@ == before.participants@.update(
            slot,
            claim_prize::participant_after(record),
        )
    }

    /// Whether `self` is `before` after `caller` has been refunded their entry
    /// fee: vault and pool are down by it, and the caller's record is marked.
    pub open spec fn refunded(&self, before: SeasonAccount, caller: Identity) -> bool {
        let slot = position_of_wallet(before.participants@, caller);
        let record = before.participants@[slot];
        &&& self.season == emergency_withdraw::season_after(before.season, record)
        &&& self.vault == emergency_withdraw::vault_after(before.vault, record)
        &&& self.participants@ == before.participants@.update(
            slot,
            emergency_withdraw::participant_after(record),
        )
    }

    /// Whether `self` is `before` with the emergency flag raised.
    pub open spec fn stopped(&self, before: SeasonAccount) -> bool {
        *self == (SeasonAccount {
            season: Season { emergency_active: true, ..before.season },
            ..before
        })
    }

    /// Whether `self` is `before` with its windows rewritten at time `now` for a
    /// registration of `hours` hours and a game of `days` days.
    pub open spec fn retimed(&self, before: SeasonAccount, now: int, hours: int, days: int) -> bool {
        *self == (SeasonAccount {
            season: Season {
                registration_end: update_season_timings::new_registration_end(
                    before.season,
                    now,
                    hours,
                ) as i64,
                season_end: update_season_timings::new_season_end(
                    before.season,
                    now,
                    hours,
                    days,
                ) as i64,
                ..before.season
            },
            ..before
        })
    }

    /// Why assigning winners is refused, if it is: first the season's own
    /// conditions, then `NotRegistered` where a named wallet has no record.
    pub open spec fn winners_refusal(
        &self,
        caller: Identity,
        wallets: Seq<Identity>,
        now: int,
    ) -> Option<GorbageError> {
        match set_winners::refusal(self.season, caller, wallets, now) {
            Some(e) => Some(e),
            None => if !all_registered(self.participants@, wallets) {
                Some(GorbageError::NotRegistered)
            } else {
                None
            },
        }
    }

    /// Whether every wallet in `ranked_wallets` has a record.
    pub(crate) fn winners_registered(&self, ranked_wallets: &Vec<Identity>) -> (r: bool)
        ensures
            r == all_registered(self.participants@, ranked_wallets@),
    {
        let mut k: usize = 0;
        while k < ranked_wallets.len()
            invariant
                k <= ranked_wallets@.len(),
                forall|j: int|
                    0 <= j < k ==> is_registered(self.participants@, #[trigger] ranked_wallets@[j]),
            decreases ranked_wallets@.len() - k,
        {
            if find_participant(&self.participants, &ranked_wallets[k]).is_none() {
                return false;
            }
            k = k + 1;
        }
        true
    }

    /// Assigns the season's winners, first place first: freezes for each rank the
    /// amount it pays out of the pool as it stands, writes rank and amount into the
    /// record of each named wallet, and moves the season to `WinnersSet`. A refusal
    /// changes nothing.
    pub(crate) fn set_winners(
        &mut self,
        caller: &Identity,
        ranked_wallets: &Vec<Identity>,
        now: i64,
    ) -> (result: Result<(), GorbageError>)
        requires
            old(self).wf(),
        ensures
            final(self).wf(),
            result is Ok ==> final(self).follows(*old(self)),
            match old(self).winners_refusal(*caller, ranked_wallets@, now as int) {
                Some(e) => result == Err::<(), GorbageError>(e) && *final(self) == *old(self),
                None => result is Ok && final(self).winners_assigned(*old(self), ranked_wallets@),
            },
    {
        match set_winners::check(&self.season, caller, ranked_wallets, now) {
            Some(e) => { return Err(e); },
            None => {},
        }
        if !self.winners_registered(ranked_wallets) {
            return Err(GorbageError::NotRegistered);
        }
        let ghost before = old(self).participants@;
        let ghost winners = set_winners::ranked_winners(
            ranked_wallets@,
            old(self).season.pool_balance as int,
        );
        // Every condition has been tested: from here on no step is refused.
        match set_winners::handler(&mut self.season, caller, ranked_wallets, now) {
            Ok(()) => {},
            Err(e) => { return Err(e); },
        }
        let count: usize = ranked_wallets.len();
        let mut k: usize = 0;
        while k < count
            invariant
                1 <= count <= 3,
                count == ranked_wallets@.len(),
                k <= count,
                old(self).wf(),
                before == old(self).participants@,
                self.vault == old(self).vault,
                self.season.wf(),
                self.season.season_id == old(self).season.season_id,
                self.season.participant_count == old(self).season.participant_count,
                self.season.pool_balance == old(self).season.pool_balance,
                self.season.status == SeasonStatus::WinnersSet,
                self.season.winners_set,
                self.season.winners@ == winners,
                winners == set_winners::ranked_winners(
                    ranked_wallets@,
                    old(self).season.pool_balance as int,
                ),
                self.season.authority == *caller || self.season.oracle == Some(*caller),
                self.season == (Season {
                    winners: self.season.winners,
                    winners_set: true,
                    status: SeasonStatus::WinnersSet,
                    ..old(self).season
                }),
                all_registered(before, ranked_wallets@),
                self.participants@.len() == before.len(),
                self.participants@ == assign_ranks(before, winners, k as int),
                forall|i: int|
                    0 <= i < before.len() ==> {
                        &&& (#[trigger] self.participants@[i]).wallet == before[i].wallet
                        &&& self.participants@[i].season_id == before[i].season_id
                        &&& self.participants@[i].entry_fee_paid == before[i].entry_fee_paid
                        &&& self.participants@[i].emergency_withdrawn
                            == before[i].emergency_withdrawn
                        &&& !self.participants@[i].claimed
                        &&& self.participants@[i].wf()
                    },
            decreases count - k,
        {
            let wallet: Identity = ranked_wallets[k];
            proof {
                let witness = position_of_wallet(before, wallet);
                assert(self.participants@[witness].wallet == wallet);
            }
            let slot: usize = match find_participant(&self.participants, &wallet) {
                Some(slot) => slot,
                None => { return Err(GorbageError::NotRegistered); },
            };
            let mut record: Participant = self.participants[slot];
            let placement: u8 = (k + 1) as u8;
            match set_winners::set_winner_prize(&self.season, &mut record, caller, placement) {
                Ok(()) => {},
                Err(e) => { return Err(e); },
            }
            self.participants[slot] = record;
            k = k + 1;
        }
        proof {
            lemma_sums_agree(before, self.participants@);
            lemma_assign_ranks_keeps_the_rest(before, winners, winners.len() as int);
        }
        Ok(())
    }
}

} // verus!
