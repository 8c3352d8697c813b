//! The lifecycle controller: the owner of the registry and the only way to change
//! it.
//!
//! A controller starts out empty and changes through the operations below and
//! through nothing else, so its registry is well formed at all times: every vault
//! holds exactly its season's pool, every pool is what the participants' records
//! account for, and there is one record per wallet and season. Each operation
//! either commits all of its effects or refuses and leaves the registry as it was.
//!
//! What an operation returns and what it makes of the registry is stated by the
//! `_outcome` function of the same name in [`crate::registry`]; the view of a
//! controller is its registry.

use vstd::prelude::*;
use crate::account::SeasonAccount;
use crate::error::GorbageError;
use crate::identity::Identity;
use crate::instructions::initialize_season::SeasonParams;
use crate::ledger::{is_registered, record_of};
use crate::registry::Registry;
use crate::state::config::ProgramConfig;
use crate::state::participant::Participant;

verus! {

/// The owner of a registry.
pub struct LifecycleController {
    registry: Registry,
}

impl View for LifecycleController {
    type V = Registry;

    closed spec fn view(&self) -> Registry {
        self.registry
    }
}

impl LifecycleController {
    #[verifier::type_invariant]
    closed spec fn well_formed(&self) -> bool {
        self.registry.wf()
    }

    /// A controller with no configuration and no season.
    pub fn new() -> (controller: LifecycleController)
        ensures
            controller@.config is None,
            controller@.accounts@.len() == 0,
            controller@.wf(),
    {
        LifecycleController { registry: Registry::new() }
    }

    /// The registry as it stands, to read.
    pub fn registry(&self) -> (registry: &Registry)
        ensures
            *registry == self@,
            registry.wf(),
    {
        proof {
            use_type_invariant(self);
        }
        &self.registry
    }

    /// The configuration, once it exists.
    pub fn config(&self) -> (config: Option<ProgramConfig>)
        ensures
            config == self@.config,
    {
        self.registry.config
    }

    /// The number of seasons that exist.
    pub fn season_count(&self) -> (count: usize)
        ensures
            count == self@.accounts@.len(),
    {
        self.registry.accounts.len()
    }

    /// The season with this id, with its vault and its participants' records, if
    /// it exists.
    pub fn account(&self, season_id: u64) -> (found: Option<&SeasonAccount>)
        ensures
            self@.wf(),
            match found {
                Some(account) => self@.has_season(season_id) && *account == self@.account_of(
                    season_id,
                ),
                None => !self@.has_season(season_id),
            },
    {
        proof {
            use_type_invariant(self);
        }
        self.registry.account(season_id)
    }

    /// The record of `wallet` in the season with this id, if both exist.
    pub fn participant(&self, season_id: u64, wallet: &Identity) -> (found: Option<Participant>)
        ensures
            self@.wf(),
            match found {
                Some(record) => {
                    &&& self@.has_season(season_id)
                    &&& is_registered(self@.account_of(season_id).participants@, *wallet)
                    &&& record == record_of(self@.account_of(season_id).participants@, *wallet)
                },
                None => !self@.has_season(season_id) || !is_registered(
                    self@.account_of(season_id).participants@,
                    *wallet,
                ),
            },
    {
        proof {
            use_type_invariant(self);
        }
        self.registry.participant(season_id, wallet)
    }

    /// Creates the configuration with `caller` as administrator; refused with
    /// `AlreadyInitialized` exactly when it exists already.
    pub fn initialize_config(&mut self, caller: Identity) -> (result: Result<(), GorbageError>)
        ensures
            old(self)@.wf(),
            final(self)@.wf(),
            final(self)@.follows(old(self)@),
            final(self)@.initialize_config_outcome(old(self)@, caller, result),
    {
        proof {
            use_type_invariant(&*self);
        }
        let mut registry = Registry::new();
        core::mem::swap(&mut self.registry, &mut registry);
        let result = registry.initialize_config(caller);
        self.registry = registry;
        result
    }

    /// Hands the administrator role to `new_admin`; refused with `Unauthorized`
    /// exactly when `caller` is not the administrator, which includes the case
    /// that there is none yet.
    pub fn transfer_admin(&mut self, caller: Identity, new_admin: Identity) -> (result: Result<
        (),
        GorbageError,
    >)
        ensures
            old(self)@.wf(),
            final(self)@.wf(),
            final(self)@.follows(old(self)@),
            final(self)@.transfer_admin_outcome(old(self)@, caller, new_admin, result),
    {
        proof {
            use_type_invariant(&*self);
        }
        let mut registry = Registry::new();
        core::mem::swap(&mut self.registry, &mut registry);
        let result = registry.transfer_admin(caller, new_admin);
        self.registry = registry;
        result
    }

    /// Creates the season that `params` describes: open for registration, with an
    /// empty pool, an empty vault and no participants. Refused with `Unauthorized`
    /// unless `caller` is the administrator, with `InvalidParameter` for parameters
    /// out of bounds, and with `DuplicateId` where the id is in use, in this order.
    /// A refusal changes nothing.
    pub fn initialize_season(&mut self, caller: Identity, params: SeasonParams) -> (result: Result<
        (),
        GorbageError,
    >)
        ensures
            old(self)@.wf(),
            final(self)@.wf(),
            final(self)@.follows(old(self)@),
            final(self)@.initialize_season_outcome(old(self)@, caller, params, result),
    {
        proof {
            use_type_invariant(&*self);
        }
        let mut registry = Registry::new();
        core::mem::swap(&mut self.registry, &mut registry);
        let result = registry.initialize_season(caller, params);
        self.registry = registry;
        result
    }

    /// Registers `caller` in the season with this id at time `now`. On success the
    /// entry fee, which is returned and which the host owes to the vault on the
    /// caller's behalf, is credited to vault and pool, the participant count goes
    /// up by one, and a record for `caller` is added. A wallet that has a record
    /// in the season is always refused. A refusal changes nothing.
    pub fn register_participant(&mut self, caller: Identity, season_id: u64, now: i64) -> (result:
        Result<u64, GorbageError>)
        ensures
            old(self)@.wf(),
            final(self)@.wf(),
            final(self)@.follows(old(self)@),
            old(self)@.has_season(season_id) && is_registered(
                old(self)@.account_of(season_id).participants@,
                caller,
            ) ==> result is Err,
            final(self)@.register_participant_outcome(old(self)@, caller, season_id, now, result),
    {
        proof {
            use_type_invariant(&*self);
        }
        let mut registry = Registry::new();
        core::mem::swap(&mut self.registry, &mut registry);
        let result = registry.register_participant(caller, season_id, now);
        self.registry = registry;
        result
    }

    /// Skims the platform fee from the season with this id and returns it; the
    /// host owes that amount to the treasury. A second collection is refused with
    /// `FeeAlreadyCollected`. A refusal changes nothing.
    pub fn collect_fee(&mut self, caller: Identity, season_id: u64, now: i64) -> (result: Result<
        u64,
        GorbageError,
    >)
        ensures
            old(self)@.wf(),
            final(self)@.wf(),
            final(self)@.follows(old(self)@),
            final(self)@.collect_fee_outcome(old(self)@, caller, season_id, now, result),
    {
        proof {
            use_type_invariant(&*self);
        }
        let mut registry = Registry::new();
        core::mem::swap(&mut self.registry, &mut registry);
        let result = registry.collect_fee(caller, season_id, now);
        self.registry = registry;
        result
    }

    /// Assigns the winners of the season with this id, first place first. Each
    /// rank's amount is the share that the payout table gives it of the pool as it
    /// stands, for as many winners as are named; rank and amount are written into
    /// the winner's record and into the season, which moves to `WinnersSet`. A
    /// refusal changes nothing.
    pub fn set_winners(
        &mut self,
        caller: Identity,
        season_id: u64,
        ranked_wallets: Vec<Identity>,
        now: i64,
    ) -> (result: Result<(), GorbageError>)
        ensures
            old(self)@.wf(),
            final(self)@.wf(),
            final(self)@.follows(old(self)@),
            final(self)@.set_winners_outcome(
                old(self)@,
                caller,
                season_id,
                ranked_wallets@,
                now,
                result,
            ),
    {
        proof {
            use_type_invariant(&*self);
        }
        let mut registry = Registry::new();
        core::mem::swap(&mut self.registry, &mut registry);
        let result = registry.set_winners(caller, season_id, ranked_wallets, now);
        self.registry = registry;
        result
    }

    /// Pays `caller` the amount frozen for their rank in the season with this id
    /// and marks their record as claimed, in one step. Returns the amount, which
    /// the host owes to the winner; vault and pool go down by it. A participant
    /// whose record is marked as claimed is always refused. A refusal changes
    /// nothing.
    pub fn claim_prize(&mut self, caller: Identity, season_id: u64) -> (result: Result<
        u64,
        GorbageError,
    >)
        ensures
            old(self)@.wf(),
            final(self)@.wf(),
            final(self)@.follows(old(self)@),
            old(self)@.has_season(season_id) && is_registered(
                old(self)@.account_of(season_id).participants@,
                caller,
            ) && record_of(old(self)@.account_of(season_id).participants@, caller).claimed
                ==> result is Err,
            final(self)@.claim_prize_outcome(old(self)@, caller, season_id, result),
    {
        proof {
            use_type_invariant(&*self);
        }
        let mut registry = Registry::new();
        core::mem::swap(&mut self.registry, &mut registry);
        let result = registry.claim_prize(caller, season_id);
        self.registry = registry;
        result
    }

    /// Closes the season with this id: returns what its vault still holds, which
    /// the host owes to the authority, and removes the season with its vault and
    /// its participants' records. A refusal changes nothing.
    pub fn close_season(&mut self, caller: Identity, season_id: u64) -> (result: Result<
        u64,
        GorbageError,
    >)
        ensures
            old(self)@.wf(),
            final(self)@.wf(),
            final(self)@.follows(old(self)@),
            final(self)@.close_season_outcome(old(self)@, caller, season_id, result),
    {
        proof {
            use_type_invariant(&*self);
        }
        let mut registry = Registry::new();
        core::mem::swap(&mut self.registry, &mut registry);
        let result = registry.close_season(caller, season_id);
        self.registry = registry;
        result
    }

    /// Raises the emergency flag of the season with this id and touches nothing
    /// else. A refusal changes nothing.
    pub fn emergency_stop(&mut self, caller: Identity, season_id: u64) -> (result: Result<
        (),
        GorbageError,
    >)
        ensures
            old(self)@.wf(),
            final(self)@.wf(),
            final(self)@.follows(old(self)@),
            final(self)@.emergency_stop_outcome(old(self)@, caller, season_id, result),
    {
        proof {
            use_type_invariant(&*self);
        }
        let mut registry = Registry::new();
        core::mem::swap(&mut self.registry, &mut registry);
        let result = registry.emergency_stop(caller, season_id);
        self.registry = registry;
        result
    }

    /// Refunds `caller` the entry fee they paid into the season with this id, in
    /// full, and marks their record as refunded. Returns the amount, which the
    /// host owes to the participant; vault and pool go down by it. A participant
    /// whose record is marked as refunded is always refused. A refusal changes
    /// nothing.
    pub fn emergency_withdraw(&mut self, caller: Identity, season_id: u64) -> (result: Result<
        u64,
        GorbageError,
    >)
        ensures
            old(self)@.wf(),
            final(self)@.wf(),
            final(self)@.follows(old(self)@),
            old(self)@.has_season(season_id) && is_registered(
                old(self)@.account_of(season_id).participants@,
                caller,
            ) && record_of(
                old(self)@.account_of(season_id).participants@,
                caller,
            ).emergency_withdrawn ==> result is Err,
            final(self)@.emergency_withdraw_outcome(old(self)@, caller, season_id, result),
    {
        proof {
            use_type_invariant(&*self);
        }
        let mut registry = Registry::new();
        core::mem::swap(&mut self.registry, &mut registry);
        let result = registry.emergency_withdraw(caller, season_id);
        self.registry = registry;
        result
    }

    /// Rewrites the windows of the season with this id, before its game begins. A
    /// refusal changes nothing.
    pub fn update_season_timings(
        &mut self,
        caller: Identity,
        season_id: u64,
        now: i64,
        registration_hours: u32,
        game_duration_days: u32,
    ) -> (result: Result<(), GorbageError>)
        ensures
            old(self)@.wf(),
            final(self)@.wf(),
            final(self)@.follows(old(self)@),
            final(self)@.update_season_timings_outcome(
                old(self)@,
                caller,
                season_id,
                now,
                registration_hours,
                game_duration_days,
                result,
            ),
    {
        proof {
            use_type_invariant(&*self);
        }
        let mut registry = Registry::new();
        core::mem::swap(&mut self.registry, &mut registry);
        let result = registry.update_season_timings(
            caller,
            season_id,
            now,
            registration_hours,
            game_duration_days,
        );
        self.registry = registry;
        result
    }
}

} // verus!
