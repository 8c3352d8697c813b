//! The registration record of one wallet in one season.

use vstd::prelude::*;
use crate::identity::Identity;

verus! {

/// One wallet's registration in one season.
#[derive(Clone, Copy, Debug)]
pub struct Participant {
    pub season_id: u64,
    pub wallet: Identity,
    pub registered_at: i64,
    pub entry_fee_paid: u64,
    /// Winning rank, 1 to 3; 0 for a participant who has not been ranked.
    pub rank: u8,
    /// What the rank pays; 0 until winners are assigned.
    pub payable_amount: u64,
    pub claimed: bool,
    pub emergency_withdrawn: bool,
}

impl Participant {
    /// What always holds of a record: only a ranked participant has an amount
    /// payable, and only one with a positive amount payable can have claimed.
    pub open spec fn wf(&self) -> bool {
        &&& self.rank <= 3
        &&& self.rank == 0 ==> self.payable_amount == 0
        &&& self.claimed ==> self.rank > 0 && self.payable_amount > 0
    }

    /// The record written at registration.
    pub fn new(season_id: u64, wallet: Identity, registered_at: i64, entry_fee_paid: u64) -> (p:
        Participant)
        ensures
            p == Participant::fresh(season_id, wallet, registered_at, entry_fee_paid),
            p.wf(),
    {
        Participant {
            season_id,
            wallet,
            registered_at,
            entry_fee_paid,
            rank: 0,
            payable_amount: 0,
            claimed: false,
            emergency_withdrawn: false,
        }
    }

    /// The record of a participant who has just registered.
    pub open spec fn fresh(
        season_id: u64,
        wallet: Identity,
        registered_at: i64,
        entry_fee_paid: u64,
    ) -> Participant {
        Participant {
            season_id,
            wallet,
            registered_at,
            entry_fee_paid,
            rank: 0,
            payable_amount: 0,
            claimed: false,
            emergency_withdrawn: false,
        }
    }

    /// Whether the participant holds a winning rank.
    pub fn is_winner(&self) -> (r: bool)
        ensures
            r == (self.rank > 0),
    {
        self.rank > 0
    }
}

} // verus!
