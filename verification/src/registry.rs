//! The registry: the configuration and every season with its vault and its
//! participants, as plain data, with what each lifecycle operation makes of it.
//!
//! Each operation finds the records it needs, runs the transition from
//! [`crate::instructions`] on them, and either commits all of it or refuses and
//! leaves the whole registry as it was. The operations assume a well-formed
//! registry and are therefore reached only through
//! [`crate::controller::LifecycleController`], which keeps its registry well formed.

use vstd::prelude::*;
use crate::account::SeasonAccount;
use crate::accounting::{lemma_sums_push, lemma_sums_update};
use crate::error::GorbageError;
use crate::identity::Identity;
use crate::instructions::initialize_season::SeasonParams;
use crate::instructions::{
    claim_prize, close_season, collect_fee, emergency_stop, emergency_withdraw,
    initialize_config, initialize_season, register_participant, transfer_admin,
    update_season_timings,
};
use crate::ledger::{find_participant, is_registered, record_of};
use crate::payout::fee_of;
use crate::state::config::ProgramConfig;
use crate::state::participant::Participant;
use crate::vault::Vault;

verus! {

/// The whole state: the configuration, once it exists, and every season that has
/// not been closed.
pub struct Registry {
    pub config: Option<ProgramConfig>,
    pub accounts: Vec<SeasonAccount>,
}

impl Registry {
    /// Whether a season with this id exists.
    pub open spec fn has_season(&self, season_id: u64) -> bool {
        exists|i: int|
            0 <= i < self.accounts@.len() && (#[trigger] self.accounts@[i]).season.season_id
                == season_id
    }

    /// The position of the season with this id, where it exists.
    pub open spec fn position_of(&self, season_id: u64) -> int {
        choose|i: int|
            0 <= i < self.accounts@.len() && (#[trigger] self.accounts@[i]).season.season_id
                == season_id
    }

    /// The season with this id, with its vault and participants, where it exists.
    pub open spec fn account_of(&self, season_id: u64) -> SeasonAccount {
        self.accounts@[self.position_of(season_id)]
    }

    /// What holds of the registry between operations: every season is well formed and
    /// no two seasons share an id.
    pub open spec fn wf(&self) -> bool {
        &&& forall|i: int| 0 <= i < self.accounts@.len() ==> (#[trigger] self.accounts@[i]).wf()
        &&& forall|i: int, j: int|
            0 <= i < j < self.accounts@.len() ==> (#[trigger] self.accounts@[i]).season.season_id
                != (#[trigger] self.accounts@[j]).season.season_id
    }

    /// Whether `self` holds the same configuration and the same seasons, vaults and
    /// participants as `other`.
    pub open spec fn same_state(&self, other: Registry) -> bool {
        &&& self.config == other.config
        &&& self.accounts@ == other.accounts@
    }

    /// Whether `self` differs from `other` at most in the season with this id.
    pub open spec fn same_except(&self, other: Registry, season_id: u64) -> bool {
        &&& self.config == other.config
        &&& self.accounts@.len() == other.accounts@.len()
        &&& forall|i: int|
            0 <= i < self.accounts@.len() && i != other.position_of(season_id) ==> self.accounts@[i]
                == other.accounts@[i]
    }

    /// The account that `self` holds at the position where `before` holds the
    /// season with this id.
    pub open spec fn touched(&self, before: Registry, season_id: u64) -> SeasonAccount {
        self.accounts@[before.position_of(season_id)]
    }

    /// Whether `self` is `before` but for the season with this id, which is still
    /// there and in the same place.
    pub open spec fn changed_only(&self, before: Registry, season_id: u64) -> bool {
        &&& self.same_except(before, season_id)
        &&& self.has_season(season_id)
        &&& self.account_of(season_id) == self.touched(before, season_id)
    }

    /// What holds across every operation: a configuration, once created, stays;
    /// and every season that is there before and after continues itself.
    pub open spec fn follows(&self, before: Registry) -> bool {
        &&& before.config is Some ==> self.config is Some
        &&& forall|season_id: u64|
            #[trigger] before.has_season(season_id) && self.has_season(season_id)
                ==> self.account_of(season_id).follows(before.account_of(season_id))
    }

    /// In a well-formed registry the season at a position is the season that its id
    /// names.
    pub proof fn lemma_account_at(&self, i: int)
        requires
            self.wf(),
            0 <= i < self.accounts@.len(),
        ensures
            self.has_season(self.accounts@[i].season.season_id),
            self.position_of(self.accounts@[i].season.season_id) == i,
            self.account_of(self.accounts@[i].season.season_id) == self.accounts@[i],
    {
    }

    /// A registry that changed in one season only, and continued it, continues the
    /// registry before.
    pub proof fn lemma_follows_when_changed(&self, before: Registry, season_id: u64)
        requires
            before.wf(),
            self.wf(),
            before.has_season(season_id),
            self.changed_only(before, season_id),
            self.account_of(season_id).follows(before.account_of(season_id)),
        ensures
            self.follows(before),
    {
        assert forall|id: u64| #[trigger]
            before.has_season(id) && self.has_season(id) implies self.account_of(id).follows(
            before.account_of(id),
        ) by {
            if id != season_id {
                let p = before.position_of(id);
                before.lemma_account_at(p);
                self.lemma_account_at(p);
            }
        }
    }

    /// A registry with the same seasons continues the registry before.
    pub proof fn lemma_follows_when_same(&self, before: Registry)
        requires
            self.accounts@ == before.accounts@,
            before.config is Some ==> self.config is Some,
        ensures
            self.follows(before),
    {
    }

    /// A registry with no configuration and no season.
    pub(crate) fn new() -> (registry: Registry)
        ensures
            registry.config is None,
            registry.accounts@.len() == 0,
            registry.wf(),
    {
        Registry { config: None, accounts: Vec::new() }
    }

    /// The position of the season with this id, if it exists.
    pub(crate) fn find_season(&self, season_id: u64) -> (found: Option<usize>)
        ensures
            match found {
                Some(i) => {
                    &&& i < self.accounts@.len()
                    &&& self.accounts@[i as int].season.season_id == season_id
                    &&& self.has_season(season_id)
                    &&& self.wf() ==> i == self.position_of(season_id)
                },
                None => !self.has_season(season_id),
            },
    {
        let mut i: usize = 0;
        while i < self.accounts.len()
            invariant
                i <= self.accounts@.len(),
                forall|j: int|
                    0 <= j < i ==> (#[trigger] self.accounts@[j]).season.season_id != season_id,
            decreases self.accounts@.len() - i,
        {
            if self.accounts[i].season.season_id == season_id {
                return Some(i);
            }
            i = i + 1;
        }
        None
    }

    /// The season with this id, with its vault and its participants' records, if
    /// it exists.
    pub(crate) fn account(&self, season_id: u64) -> (found: Option<&SeasonAccount>)
        requires
            self.wf(),
        ensures
            match found {
                Some(account) => self.has_season(season_id) && *account == self.account_of(
                    season_id,
                ),
                None => !self.has_season(season_id),
            },
    {
        match self.find_season(season_id) {
            Some(index) => Some(&self.accounts[index]),
            None => None,
        }
    }

    /// The record of `wallet` in the season with this id, if both exist.
    pub(crate) fn participant(&self, season_id: u64, wallet: &Identity) -> (found: Option<Participant>)
        requires
            self.wf(),
        ensures
            match found {
                Some(record) => {
                    &&& self.has_season(season_id)
                    &&& is_registered(self.account_of(season_id).participants@, *wallet)
                    &&& record == record_of(self.account_of(season_id).participants@, *wallet)
                },
                None => !self.has_season(season_id) || !is_registered(
                    self.account_of(season_id).participants@,
                    *wallet,
                ),
            },
    {
        match self.find_season(season_id) {
            Some(index) => {
                let account = &self.accounts[index];
                match find_participant(&account.participants, wallet) {
                    Some(slot) => Some(account.participants[slot]),
                    None => None,
                }
            },
            None => None,
        }
    }

    /// What bootstrapping by `caller` makes of `before`, and what it returns.
    pub open spec fn initialize_config_outcome(
        &self,
        before: Registry,
        caller: Identity,
        result: Result<(), GorbageError>,
    ) -> bool {
        if before.config is Some {
            result == Err::<(), GorbageError>(GorbageError::AlreadyInitialized) && self.same_state(
                before,
            )
        } else {
            &&& result is Ok
            &&& self.config == Some(ProgramConfig { admin: caller })
            &&& self.accounts@ == before.accounts@
        }
    }

    /// What handing the administrator role from `caller` to `new_admin` makes of
    /// `before`, and what it returns.
    pub open spec fn transfer_admin_outcome(
        &self,
        before: Registry,
        caller: Identity,
        new_admin: Identity,
        result: Result<(), GorbageError>,
    ) -> bool {
        if before.config == Some(ProgramConfig { admin: caller }) {
            &&& result is Ok
            &&& self.config == Some(ProgramConfig { admin: new_admin })
            &&& self.accounts@ == before.accounts@
        } else {
            result == Err::<(), GorbageError>(GorbageError::Unauthorized) && self.same_state(before)
        }
    }

    /// Creates the configuration with `caller` as administrator; refused with
    /// `AlreadyInitialized` exactly when it exists already.
    pub(crate) fn initialize_config(&mut self, caller: Identity) -> (result: Result<(), GorbageError>)
        requires
            old(self).wf(),
        ensures
            final(self).wf(),
            final(self).follows(*old(self)),
            final(self).initialize_config_outcome(*old(self), caller, result),
    {
        let result = initialize_config::handler(&mut self.config, caller);
        proof {
            self.lemma_follows_when_same(*old(self));
        }
        result
    }

    /// Hands the administrator role to `new_admin`; refused with `Unauthorized`
    /// exactly when `caller` is not the administrator, which includes the case
    /// that there is none yet.
    pub(crate) fn transfer_admin(&mut self, caller: Identity, new_admin: Identity) -> (result: Result<
        (),
        GorbageError,
    >)
        requires
            old(self).wf(),
        ensures
            final(self).wf(),
            final(self).follows(*old(self)),
            final(self).transfer_admin_outcome(*old(self), caller, new_admin, result),
    {
        let result = match &mut self.config {
            Some(config) => transfer_admin::handler(config, &caller, new_admin),
            None => Err(GorbageError::Unauthorized),
        };
        proof {
            self.lemma_follows_when_same(*old(self));
        }
        result
    }

    /// Why creating a season is refused, if it is: first a caller who is not the
    /// administrator, then parameters out of bounds, then an id already in use.
    pub open spec fn creation_refusal(&self, caller: Identity, params: SeasonParams) -> Option<
        GorbageError,
    > {
        if self.config != Some(ProgramConfig { admin: caller }) {
            Some(GorbageError::Unauthorized)
        } else if !params.valid() {
            Some(GorbageError::InvalidParameter)
        } else if self.has_season(params.season_id) {
            Some(GorbageError::DuplicateId)
        } else {
            None
        }
    }

    /// What creating a season from `params` makes of `before`, and what it returns.
    pub open spec fn initialize_season_outcome(
        &self,
        before: Registry,
        caller: Identity,
        params: SeasonParams,
        result: Result<(), GorbageError>,
    ) -> bool {
        match before.creation_refusal(caller, params) {
            Some(e) => result == Err::<(), GorbageError>(e) && self.same_state(
                before,
            ),
            None => {
                &&& result is Ok
                &&& self.config == before.config
                &&& self.accounts@.len() == before.accounts@.len() + 1
                &&& self.accounts@.drop_last() == before.accounts@
                &&& initialize_season::opens(self.accounts@.last().season, params)
                &&& self.accounts@.last().vault == (Vault {
                    season_id: params.season_id,
                    balance: 0,
                })
                &&& self.accounts@.last().participants@.len() == 0
                &&& self.has_season(params.season_id)
            },
        }
    }

    /// Creates the season that `params` describes: open for registration, with an
    /// empty pool, an empty vault and no participants. A refusal changes nothing.
    pub(crate) fn initialize_season(&mut self, caller: Identity, params: SeasonParams) -> (result:
        Result<(), GorbageError>)
        requires
            old(self).wf(),
        ensures
            final(self).wf(),
            final(self).follows(*old(self)),
            final(self).initialize_season_outcome(*old(self), caller, params, result),
    {
        proof {
            self.lemma_follows_when_same(*old(self));
        }
        let config: ProgramConfig = match self.config {
            Some(config) => config,
            None => { return Err(GorbageError::Unauthorized); },
        };
        let season_id: u64 = params.season_id;
        let (season, vault) = match initialize_season::handler(&config, &caller, params) {
            Ok(created) => created,
            Err(e) => { return Err(e); },
        };
        if self.find_season(season_id).is_some() {
            return Err(GorbageError::DuplicateId);
        }
        self.accounts.push(SeasonAccount { season, vault, participants: Vec::new() });
        proof {
            assert(self.accounts@.drop_last() =~= old(self).accounts@);
            assert forall|id: u64| #[trigger]
                old(self).has_season(id) && self.has_season(id) implies self.account_of(
                id,
            ).follows(old(self).account_of(id)) by {
                let p = old(self).position_of(id);
                old(self).lemma_account_at(p);
                self.lemma_account_at(p);
            }
        }
        Ok(())
    }

    /// Why registering `caller` in the season with this id at time `now` is
    /// refused, if it is: a season that does not exist is a `StateConflict`;
    /// otherwise the season's own conditions decide.
    pub open spec fn registration_refusal(&self, caller: Identity, season_id: u64, now: int) -> Option<
        GorbageError,
    > {
        if !self.has_season(season_id) {
            Some(GorbageError::StateConflict)
        } else {
            register_participant::refusal(
                self.account_of(season_id).season,
                self.account_of(season_id).vault,
                is_registered(self.account_of(season_id).participants@, caller),
                now,
            )
        }
    }

    /// What registering `caller` at time `now` makes of `before`, and what it returns.
    pub open spec fn register_participant_outcome(
        &self,
        before: Registry,
        caller: Identity,
        season_id: u64,
        now: i64,
        result: Result<u64, GorbageError>,
    ) -> bool {
        match before.registration_refusal(caller, season_id, now as int) {
            Some(e) => result == Err::<u64, GorbageError>(e) && self.same_state(
                before,
            ),
            None => {
                &&& result == Ok::<u64, GorbageError>(
                    before.account_of(season_id).season.entry_fee,
                )
                &&& self.changed_only(before, season_id)
                &&& self.account_of(season_id).registered(
                    before.account_of(season_id),
                    caller,
                    now,
                )
            },
        }
    }

    /// Registers `caller` in the season with this id at time `now`. On success the
    /// entry fee, which is returned and which the caller of this function owes to
    /// the vault, is credited to vault and pool, the participant count goes up by
    /// one, and a record for `caller` is added. A wallet that has a record in the
    /// season is always refused. A refusal changes nothing.
    pub(crate) fn register_participant(
        &mut self,
        caller: Identity,
        season_id: u64,
        now: i64,
    ) -> (result: Result<u64, GorbageError>)
        requires
            old(self).wf(),
        ensures
            final(self).wf(),
            final(self).follows(*old(self)),
            old(self).has_season(season_id) && is_registered(
                old(self).account_of(season_id).participants@,
                caller,
            ) ==> result is Err,
            final(self).register_participant_outcome(*old(self), caller, season_id, now, result),
    {
        proof {
            self.lemma_follows_when_same(*old(self));
        }
        let index: usize = match self.find_season(season_id) {
            Some(index) => index,
            None => { return Err(GorbageError::StateConflict); },
        };
        let account = &mut self.accounts[index];
        let already_registered: bool = find_participant(&account.participants, &caller).is_some();
        let result = match register_participant::handler(
            &mut account.season,
            &mut account.vault,
            already_registered,
            caller,
            now,
        ) {
            Ok(record) => {
                let fee: u64 = record.entry_fee_paid;
                proof {
                    lemma_sums_push(account.participants@, record);
                }
                account.participants.push(record);
                Ok(fee)
            },
            Err(e) => Err(e),
        };
        proof {
            if result is Err {
                assert(self.accounts@ =~= old(self).accounts@);
                self.lemma_follows_when_same(*old(self));
            } else {
                self.lemma_account_at(index as int);
                self.lemma_follows_when_changed(*old(self), season_id);
            }
        }
        result
    }

    /// Why collecting the fee is refused, if it is: a season that does not exist is
    /// a `StateConflict`; otherwise the season's own conditions decide.
    pub open spec fn fee_refusal(&self, caller: Identity, season_id: u64, now: int) -> Option<
        GorbageError,
    > {
        if !self.has_season(season_id) {
            Some(GorbageError::StateConflict)
        } else {
            collect_fee::refusal(
                self.account_of(season_id).season,
                self.account_of(season_id).vault,
                caller,
                now,
            )
        }
    }

    /// What collecting the fee at time `now` makes of `before`, and what it returns.
    pub open spec fn collect_fee_outcome(
        &self,
        before: Registry,
        caller: Identity,
        season_id: u64,
        now: i64,
        result: Result<u64, GorbageError>,
    ) -> bool {
        match before.fee_refusal(caller, season_id, now as int) {
            Some(e) => result == Err::<u64, GorbageError>(e) && self.same_state(
                before,
            ),
            None => {
                &&& result == Ok::<u64, GorbageError>(
                    fee_of(before.account_of(season_id).season.pool_balance as int) as u64,
                )
                &&& self.changed_only(before, season_id)
                &&& self.account_of(season_id).fee_taken(before.account_of(season_id))
            },
        }
    }

    /// Skims the platform fee from the season with this id and returns it; the
    /// caller of this function owes that amount to the treasury. A second
    /// collection is refused with `FeeAlreadyCollected`. A refusal changes nothing.
    pub(crate) fn collect_fee(&mut self, caller: Identity, season_id: u64, now: i64) -> (result: Result<
        u64,
        GorbageError,
    >)
        requires
            old(self).wf(),
        ensures
            final(self).wf(),
            final(self).follows(*old(self)),
            final(self).collect_fee_outcome(*old(self), caller, season_id, now, result),
    {
        proof {
            self.lemma_follows_when_same(*old(self));
        }
        let index: usize = match self.find_season(season_id) {
            Some(index) => index,
            None => { return Err(GorbageError::StateConflict); },
        };
        let account = &mut self.accounts[index];
        let result = collect_fee::handler(&mut account.season, &mut account.vault, &caller, now);
        proof {
            if result is Err {
                assert(self.accounts@ =~= old(self).accounts@);
                self.lemma_follows_when_same(*old(self));
            } else {
                self.lemma_account_at(index as int);
                self.lemma_follows_when_changed(*old(self), season_id);
            }
        }
        result
    }

    /// Why an emergency stop is refused, if it is: a season that does not exist is
    /// a `StateConflict`; otherwise the season's own conditions decide.
    pub open spec fn stop_refusal(&self, caller: Identity, season_id: u64) -> Option<
        GorbageError,
    > {
        if !self.has_season(season_id) {
            Some(GorbageError::StateConflict)
        } else {
            emergency_stop::refusal(self.account_of(season_id).season, caller)
        }
    }

    /// What an emergency stop makes of `before`, and what it returns.
    pub open spec fn emergency_stop_outcome(
        &self,
        before: Registry,
        caller: Identity,
        season_id: u64,
        result: Result<(), GorbageError>,
    ) -> bool {
        match before.stop_refusal(caller, season_id) {
            Some(e) => result == Err::<(), GorbageError>(e) && self.same_state(
                before,
            ),
            None => {
                &&& result is Ok
                &&& self.changed_only(before, season_id)
                &&& self.account_of(season_id).stopped(before.account_of(season_id))
            },
        }
    }

    /// Raises the emergency flag of the season with this id and touches nothing
    /// else. A refusal changes nothing.
    pub(crate) fn emergency_stop(&mut self, caller: Identity, season_id: u64) -> (result: Result<
        (),
        GorbageError,
    >)
        requires
            old(self).wf(),
        ensures
            final(self).wf(),
            final(self).follows(*old(self)),
            final(self).emergency_stop_outcome(*old(self), caller, season_id, result),
    {
        proof {
            self.lemma_follows_when_same(*old(self));
        }
        let index: usize = match self.find_season(season_id) {
            Some(index) => index,
            None => { return Err(GorbageError::StateConflict); },
        };
        let account = &mut self.accounts[index];
        let result = emergency_stop::handler(&mut account.season, &caller);
        proof {
            if result is Err {
                assert(self.accounts@ =~= old(self).accounts@);
                self.lemma_follows_when_same(*old(self));
            } else {
                self.lemma_account_at(index as int);
                self.lemma_follows_when_changed(*old(self), season_id);
            }
        }
        result
    }

    /// Why a retiming is refused, if it is: a season that does not exist is a
    /// `StateConflict`; otherwise the season's own conditions decide.
    pub open spec fn retiming_refusal(
        &self,
        caller: Identity,
        season_id: u64,
        now: int,
        hours: int,
        days: int,
    ) -> Option<GorbageError> {
        if !self.has_season(season_id) {
            Some(GorbageError::StateConflict)
        } else {
            update_season_timings::refusal(
                self.account_of(season_id).season,
                caller,
                now,
                hours,
                days,
            )
        }
    }

    /// What a retiming at time `now` makes of `before`, and what it returns.
    pub open spec fn update_season_timings_outcome(
        &self,
        before: Registry,
        caller: Identity,
        season_id: u64,
        now: i64,
        registration_hours: u32,
        game_duration_days: u32,
        result: Result<(), GorbageError>,
    ) -> bool {
        match before.retiming_refusal(
            caller,
            season_id,
            now as int,
            registration_hours as int,
            game_duration_days as int,
        ) {
            Some(e) => result == Err::<(), GorbageError>(e) && self.same_state(
                before,
            ),
            None => {
                &&& result is Ok
                &&& self.changed_only(before, season_id)
                &&& self.account_of(season_id).retimed(
                    before.account_of(season_id),
                    now as int,
                    registration_hours as int,
                    game_duration_days as int,
                )
            },
        }
    }

    /// Rewrites the windows of the season with this id, before its game begins. A
    /// refusal changes nothing.
    pub(crate) fn update_season_timings(
        &mut self,
        caller: Identity,
        season_id: u64,
        now: i64,
        registration_hours: u32,
        game_duration_days: u32,
    ) -> (result: Result<(), GorbageError>)
        requires
            old(self).wf(),
        ensures
            final(self).wf(),
            final(self).follows(*old(self)),
            final(self).update_season_timings_outcome(
                *old(self),
                caller,
                season_id,
                now,
                registration_hours,
                game_duration_days,
                result,
            ),
    {
        proof {
            self.lemma_follows_when_same(*old(self));
        }
        let index: usize = match self.find_season(season_id) {
            Some(index) => index,
            None => { return Err(GorbageError::StateConflict); },
        };
        let account = &mut self.accounts[index];
        let result = update_season_timings::handler(
            &mut account.season,
            &caller,
            now,
            registration_hours,
            game_duration_days,
        );
        proof {
            if result is Err {
                assert(self.accounts@ =~= old(self).accounts@);
                self.lemma_follows_when_same(*old(self));
            } else {
                self.lemma_account_at(index as int);
                self.lemma_follows_when_changed(*old(self), season_id);
            }
        }
        result
    }

    /// Why closing is refused, if it is: a season that does not exist is a
    /// `StateConflict`; otherwise the season's own conditions decide.
    pub open spec fn closing_refusal(&self, caller: Identity, season_id: u64) -> Option<
        GorbageError,
    > {
        if !self.has_season(season_id) {
            Some(GorbageError::StateConflict)
        } else {
            close_season::refusal(self.account_of(season_id).season, caller)
        }
    }

    /// What closing a season makes of `before`, and what it returns.
    pub open spec fn close_season_outcome(
        &self,
        before: Registry,
        caller: Identity,
        season_id: u64,
        result: Result<u64, GorbageError>,
    ) -> bool {
        match before.closing_refusal(caller, season_id) {
            Some(e) => result == Err::<u64, GorbageError>(e) && self.same_state(
                before,
            ),
            None => {
                &&& result == Ok::<u64, GorbageError>(
                    before.account_of(season_id).vault.balance,
                )
                &&& self.config == before.config
                &&& self.accounts@ == before.accounts@.remove(
                    before.position_of(season_id),
                )
                &&& !self.has_season(season_id)
            },
        }
    }

    /// Closes the season with this id: returns what its vault still holds, which
    /// the caller of this function owes to the authority, and removes the season
    /// with its vault and its participants' records. A refusal changes nothing.
    pub(crate) fn close_season(&mut self, caller: Identity, season_id: u64) -> (result: Result<
        u64,
        GorbageError,
    >)
        requires
            old(self).wf(),
        ensures
            final(self).wf(),
            final(self).follows(*old(self)),
            final(self).close_season_outcome(*old(self), caller, season_id, result),
    {
        proof {
            self.lemma_follows_when_same(*old(self));
        }
        let index: usize = match self.find_season(season_id) {
            Some(index) => index,
            None => { return Err(GorbageError::StateConflict); },
        };
        let account = &mut self.accounts[index];
        let result = close_season::handler(&mut account.season, &mut account.vault, &caller);
        if result.is_err() {
            proof {
                assert(self.accounts@ =~= old(self).accounts@);
                self.lemma_follows_when_same(*old(self));
            }
            return result;
        }
        let _closed = self.accounts.remove(index);
        proof {
            assert(self.accounts@ =~= old(self).accounts@.remove(index as int));
            assert forall|id: u64| #[trigger]
                old(self).has_season(id) && self.has_season(id) implies self.account_of(
                id,
            ).follows(old(self).account_of(id)) by {
                let p = old(self).position_of(id);
                old(self).lemma_account_at(p);
                let q = if p < index { p } else { p - 1 };
                self.lemma_account_at(q);
            }
        }
        result
    }

    /// Why a claim is refused, if it is: a season that does not exist is a
    /// `StateConflict`, a caller without a record in it is `NotRegistered`;
    /// otherwise the conditions on the season and the caller's record decide.
    pub open spec fn claim_refusal(&self, caller: Identity, season_id: u64) -> Option<
        GorbageError,
    > {
        if !self.has_season(season_id) {
            Some(GorbageError::StateConflict)
        } else if !is_registered(self.account_of(season_id).participants@, caller) {
            Some(GorbageError::NotRegistered)
        } else {
            claim_prize::refusal(
                self.account_of(season_id).season,
                record_of(self.account_of(season_id).participants@, caller),
                self.account_of(season_id).vault,
                caller,
            )
        }
    }

    /// What a claim by `caller` makes of `before`, and what it returns.
    pub open spec fn claim_prize_outcome(
        &self,
        before: Registry,
        caller: Identity,
        season_id: u64,
        result: Result<u64, GorbageError>,
    ) -> bool {
        match before.claim_refusal(caller, season_id) {
            Some(e) => result == Err::<u64, GorbageError>(e) && self.same_state(
                before,
            ),
            None => {
                let record = record_of(before.account_of(season_id).participants@, caller);
                &&& result == Ok::<u64, GorbageError>(record.payable_amount)
                &&& record.payable_amount > 0
                &&& self.changed_only(before, season_id)
                &&& self.account_of(season_id).prize_claimed(
                    before.account_of(season_id),
                    caller,
                )
            },
        }
    }

    /// Pays `caller` the amount frozen for their rank in the season with this id
    /// and marks their record as claimed, in one step. Returns the amount, which
    /// the caller of this function owes to the winner; vault and pool go down by
    /// it. A participant whose record is marked as claimed is always refused. A
    /// refusal changes nothing.
    pub(crate) fn claim_prize(&mut self, caller: Identity, season_id: u64) -> (result: Result<
        u64,
        GorbageError,
    >)
        requires
            old(self).wf(),
        ensures
            final(self).wf(),
            final(self).follows(*old(self)),
            old(self).has_season(season_id) && is_registered(
                old(self).account_of(season_id).participants@,
                caller,
            ) && record_of(old(self).account_of(season_id).participants@, caller).claimed
                ==> result is Err,
            final(self).claim_prize_outcome(*old(self), caller, season_id, result),
    {
        proof {
            self.lemma_follows_when_same(*old(self));
        }
        let index: usize = match self.find_season(season_id) {
            Some(index) => index,
            None => { return Err(GorbageError::StateConflict); },
        };
        let slot: usize = match find_participant(&self.accounts[index].participants, &caller) {
            Some(slot) => slot,
            None => { return Err(GorbageError::NotRegistered); },
        };
        let account = &mut self.accounts[index];
        let mut record: Participant = account.participants[slot];
        let result = claim_prize::handler(
            &mut account.season,
            &mut record,
            &mut account.vault,
            &caller,
        );
        if result.is_ok() {
            proof {
                lemma_sums_update(account.participants@, slot as int, record);
            }
            account.participants[slot] = record;
        }
        proof {
            if result is Err {
                assert(self.accounts@ =~= old(self).accounts@);
                self.lemma_follows_when_same(*old(self));
            } else {
                self.lemma_account_at(index as int);
                self.lemma_follows_when_changed(*old(self), season_id);
            }
        }
        result
    }

    /// Why an emergency withdrawal is refused, if it is: a season that does not
    /// exist is a `StateConflict`, a caller without a record in it is
    /// `NotRegistered`; otherwise the conditions on the season and the caller's
    /// record decide.
    pub open spec fn withdrawal_refusal(&self, caller: Identity, season_id: u64) -> Option<
        GorbageError,
    > {
        if !self.has_season(season_id) {
            Some(GorbageError::StateConflict)
        } else if !is_registered(self.account_of(season_id).participants@, caller) {
            Some(GorbageError::NotRegistered)
        } else {
            emergency_withdraw::refusal(
                self.account_of(season_id).season,
                record_of(self.account_of(season_id).participants@, caller),
                self.account_of(season_id).vault,
                caller,
            )
        }
    }

    /// What an emergency withdrawal by `caller` makes of `before`, and what it returns.
    pub open spec fn emergency_withdraw_outcome(
        &self,
        before: Registry,
        caller: Identity,
        season_id: u64,
        result: Result<u64, GorbageError>,
    ) -> bool {
        match before.withdrawal_refusal(caller, season_id) {
            Some(e) => result == Err::<u64, GorbageError>(e) && self.same_state(
                before,
            ),
            None => {
                let record = record_of(before.account_of(season_id).participants@, caller);
                &&& result == Ok::<u64, GorbageError>(record.entry_fee_paid)
                &&& self.changed_only(before, season_id)
                &&& self.account_of(season_id).refunded(
                    before.account_of(season_id),
                    caller,
                )
            },
        }
    }

    /// Refunds `caller` the entry fee they paid into the season with this id, in
    /// full, and marks their record as refunded. Returns the amount, which the
    /// caller of this function owes to the participant; vault and pool go down by
    /// it. A participant whose record is marked as refunded is always refused. A
    /// refusal changes nothing.
    pub(crate) fn emergency_withdraw(&mut self, caller: Identity, season_id: u64) -> (result: Result<
        u64,
        GorbageError,
    >)
        requires
            old(self).wf(),
        ensures
            final(self).wf(),
            final(self).follows(*old(self)),
            old(self).has_season(season_id) && is_registered(
                old(self).account_of(season_id).participants@,
                caller,
            ) && record_of(
                old(self).account_of(season_id).participants@,
                caller,
            ).emergency_withdrawn ==> result is Err,
            final(self).emergency_withdraw_outcome(*old(self), caller, season_id, result),
    {
        proof {
            self.lemma_follows_when_same(*old(self));
        }
        let index: usize = match self.find_season(season_id) {
            Some(index) => index,
            None => { return Err(GorbageError::StateConflict); },
        };
        let slot: usize = match find_participant(&self.accounts[index].participants, &caller) {
            Some(slot) => slot,
            None => { return Err(GorbageError::NotRegistered); },
        };
        let account = &mut self.accounts[index];
        let mut record: Participant = account.participants[slot];
        let result = emergency_withdraw::handler(
            &mut account.season,
            &mut record,
            &mut account.vault,
            &caller,
        );
        if result.is_ok() {
            proof {
                lemma_sums_update(account.participants@, slot as int, record);
            }
            account.participants[slot] = record;
        }
        proof {
            if result is Err {
                assert(self.accounts@ =~= old(self).accounts@);
                self.lemma_follows_when_same(*old(self));
            } else {
                self.lemma_account_at(index as int);
                self.lemma_follows_when_changed(*old(self), season_id);
            }
        }
        result
    }

    /// Why assigning winners is refused, if it is: a season that does not exist is
    /// a `StateConflict`; otherwise the season's own conditions decide, and then
    /// `NotRegistered` where a named wallet has no record in the season.
    pub open spec fn winners_refusal(
        &self,
        caller: Identity,
        season_id: u64,
        wallets: Seq<Identity>,
        now: int,
    ) -> Option<GorbageError> {
        if !self.has_season(season_id) {
            Some(GorbageError::StateConflict)
        } else {
            self.account_of(season_id).winners_refusal(caller, wallets, now)
        }
    }

    /// What assigning winners at time `now` makes of `before`, and what it returns.
    pub open spec fn set_winners_outcome(
        &self,
        before: Registry,
        caller: Identity,
        season_id: u64,
        ranked_wallets: Seq<Identity>,
        now: i64,
        result: Result<(), GorbageError>,
    ) -> bool {
        match before.winners_refusal(caller, season_id, ranked_wallets, now as int) {
            Some(e) => result == Err::<(), GorbageError>(e) && self.same_state(
                before,
            ),
            None => {
                &&& result is Ok
                &&& self.changed_only(before, season_id)
                &&& self.account_of(season_id).winners_assigned(
                    before.account_of(season_id),
                    ranked_wallets,
                )
            },
        }
    }

    /// Assigns the winners of the season with this id, first place first. Each
    /// rank's amount is the share that the payout table gives it of the pool as it
    /// stands, for as many winners as are named; rank and amount are written into
    /// the winner's record and into the season, which moves to `WinnersSet`. A
    /// refusal changes nothing.
    pub(crate) fn set_winners(
        &mut self,
        caller: Identity,
        season_id: u64,
        ranked_wallets: Vec<Identity>,
        now: i64,
    ) -> (result: Result<(), GorbageError>)
        requires
            old(self).wf(),
        ensures
            final(self).wf(),
            final(self).follows(*old(self)),
            final(self).set_winners_outcome(
                *old(self),
                caller,
                season_id,
                ranked_wallets@,
                now,
                result,
            ),
    {
        proof {
            self.lemma_follows_when_same(*old(self));
        }
        let index: usize = match self.find_season(season_id) {
            Some(index) => index,
            None => { return Err(GorbageError::StateConflict); },
        };
        let account = &mut self.accounts[index];
        let result = account.set_winners(&caller, &ranked_wallets, now);
        proof {
            if result is Err {
                assert(self.accounts@ =~= old(self).accounts@);
                self.lemma_follows_when_same(*old(self));
            } else {
                self.lemma_account_at(index as int);
                self.lemma_follows_when_changed(*old(self), season_id);
            }
        }
        result
    }
}

} // verus!
