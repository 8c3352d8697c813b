//! The season record: configuration, timing windows, pool total and winners.

use vstd::prelude::*;
use crate::identity::Identity;

verus! {

/// Where a season stands in its lifecycle.
#[derive(Clone, Copy, Debug, PartialEq, Eq, Structural)]
pub enum SeasonStatus {
    /// Participants may register while the registration window is open.
    Registration,
    /// The game is running.
    Active,
    /// The game is over; winners are not assigned yet.
    Ended,
    /// Winners are assigned and may claim.
    WinnersSet,
    /// The season is closed; nothing more happens to it.
    Finalized,
}

/// One ranked winner of a season.
#[derive(Clone, Copy, Debug)]
pub struct Winner {
    pub wallet: Identity,
    pub rank: u8,
    pub payable_amount: u64,
}

/// One competition: its rules, its windows, its pool and its winners.
#[derive(Debug)]
pub struct Season {
    pub season_id: u64,
    pub authority: Identity,
    pub oracle: Option<Identity>,
    pub name: String,
    pub entry_fee: u64,
    pub pool_balance: u64,
    pub participant_count: u32,
    pub max_participants: u32,
    pub registration_start: i64,
    pub registration_end: i64,
    pub season_end: i64,
    pub status: SeasonStatus,
    pub winners_set: bool,
    pub winners: Vec<Winner>,
    pub fee_collected: bool,
    pub fee_amount: u64,
    pub emergency_active: bool,
}

impl Season {
    /// What always holds of a season record.
    pub open spec fn wf(&self) -> bool {
        &&& self.name@.len() <= 32
        &&& self.entry_fee > 0
        &&& self.registration_start < self.registration_end < self.season_end
        &&& 1 <= self.max_participants <= 4444
        &&& self.participant_count <= self.max_participants
        &&& self.winners@.len() <= 3
        &&& self.winners_set <==> (self.status == SeasonStatus::WinnersSet || self.status
            == SeasonStatus::Finalized)
        &&& self.winners_set <==> self.winners@.len() > 0
        &&& forall|k: int|
            0 <= k < self.winners@.len() ==> (#[trigger] self.winners@[k]).rank == k + 1
        &&& !self.fee_collected ==> self.fee_amount == 0
    }

    /// Whether `current_time` lies in the registration window `[start, end)` of a
    /// season that still takes registrations.
    pub open spec fn registration_open_at(&self, current_time: int) -> bool {
        &&& self.status == SeasonStatus::Registration
        &&& self.registration_start <= current_time < self.registration_end
    }

    /// Whether the season takes registrations at `current_time`.
    pub fn is_registration_open(&self, current_time: i64) -> (open: bool)
        ensures
            open == self.registration_open_at(current_time as int),
    {
        self.status == SeasonStatus::Registration && current_time >= self.registration_start
            && current_time < self.registration_end
    }

    /// Whether the game period is over at `current_time`, that is, strictly after
    /// the season's end.
    pub fn has_ended(&self, current_time: i64) -> (ended: bool)
        ensures
            ended == (current_time > self.season_end),
    {
        current_time > self.season_end
    }

    /// Whether `who` is the season's authority.
    pub fn is_authority(&self, who: &Identity) -> (r: bool)
        ensures
            r == (*who == self.authority),
    {
        who.same(&self.authority)
    }

    /// Whether `who` is the season's oracle.
    pub fn is_oracle(&self, who: &Identity) -> (r: bool)
        ensures
            r == (self.oracle == Some(*who)),
    {
        match &self.oracle {
            Some(oracle) => who.same(oracle),
            None => false,
        }
    }

    /// Whether the season is in its terminal state.
    pub fn is_finalized(&self) -> (r: bool)
        ensures
            r == (self.status == SeasonStatus::Finalized),
    {
        self.status == SeasonStatus::Finalized
    }
}

} // verus!
