//! The participants' records of one season: one record per wallet, found by wallet.

use vstd::prelude::*;
use crate::identity::Identity;
use crate::state::participant::Participant;
use crate::state::season::Winner;

verus! {

/// Whether some record in `participants` belongs to `wallet`.
pub open spec fn is_registered(participants: Seq<Participant>, wallet: Identity) -> bool {
    exists|i: int| 0 <= i < participants.len() && (#[trigger] participants[i]).wallet == wallet
}

/// Whether no two records in `participants` belong to the same wallet.
pub open spec fn distinct_wallets(participants: Seq<Participant>) -> bool {
    forall|i: int, j: int|
        0 <= i < j < participants.len() ==> (#[trigger] participants[i]).wallet != (
        #[trigger] participants[j]).wallet
}

/// The position of the record of `wallet` in `participants`, where there is one.
pub open spec fn position_of_wallet(participants: Seq<Participant>, wallet: Identity) -> int {
    choose|i: int| 0 <= i < participants.len() && (#[trigger] participants[i]).wallet == wallet
}

/// The record of `wallet` in `participants`, where there is one.
pub open spec fn record_of(participants: Seq<Participant>, wallet: Identity) -> Participant {
    participants[position_of_wallet(participants, wallet)]
}

/// The position of the record of `wallet`, if there is one.
pub fn find_participant(participants: &Vec<Participant>, wallet: &Identity) -> (found: Option<
    usize,
>)
    ensures
        match found {
            Some(i) => {
                &&& i < participants@.len()
                &&& participants@[i as int].wallet == *wallet
                &&& is_registered(participants@, *wallet)
                &&& distinct_wallets(participants@) ==> i == position_of_wallet(
                    participants@,
                    *wallet,
                )
            },
            None => !is_registered(participants@, *wallet),
        },
{
    let mut i: usize = 0;
    while i < participants.len()
        invariant
            i <= participants@.len(),
            forall|j: int| 0 <= j < i ==> (#[trigger] participants@[j]).wallet != *wallet,
        decreases participants@.len() - i,
    {
        if participants[i].wallet.same(wallet) {
            return Some(i);
        }
        i = i + 1;
    }
    None
}

/// Whether every wallet in `wallets` has a record in `participants`.
pub open spec fn all_registered(participants: Seq<Participant>, wallets: Seq<Identity>) -> bool {
    forall|k: int| 0 <= k < wallets.len() ==> is_registered(participants, #[trigger] wallets[k])
}

/// The record `p` with the rank and the amount of `winner` written into it.
pub open spec fn with_prize(p: Participant, winner: Winner) -> Participant {
    Participant { rank: winner.rank, payable_amount: winner.payable_amount, ..p }
}

/// The records after the first `upto` winners have been written into them, one
/// after the other: each winner's rank and amount go into the record of the
/// winner's wallet.
pub open spec fn assign_ranks(participants: Seq<Participant>, winners: Seq<Winner>, upto: int) -> Seq<
    Participant,
>
    decreases upto,
{
    if upto <= 0 {
        participants
    } else {
        let earlier = assign_ranks(participants, winners, upto - 1);
        Seq::new(
            participants.len(),
            |i: int|
                if earlier[i].wallet == winners[upto - 1].wallet {
                    with_prize(earlier[i], winners[upto - 1])
                } else {
                    earlier[i]
                },
        )
    }
}

/// Whether the records `after` continue the records `before`: every record is
/// still there, in its place, with the wallet, the season, the time and the entry
/// fee it was written with, and no flag that was raised has been lowered.
pub open spec fn records_kept(before: Seq<Participant>, after: Seq<Participant>) -> bool {
    &&& before.len() <= after.len()
    &&& forall|i: int|
        0 <= i < before.len() ==> {
            &&& (#[trigger] after[i]).wallet == before[i].wallet
            &&& after[i].season_id == before[i].season_id
            &&& after[i].registered_at == before[i].registered_at
            &&& after[i].entry_fee_paid == before[i].entry_fee_paid
            &&& before[i].claimed ==> after[i].claimed
            &&& before[i].emergency_withdrawn ==> after[i].emergency_withdrawn
        }
}

/// Assigning winners changes only ranks and amounts: every record keeps its
/// wallet, its season, its time, its entry fee and its two flags.
pub proof fn lemma_assign_ranks_keeps_the_rest(
    participants: Seq<Participant>,
    winners: Seq<Winner>,
    upto: int,
)
    requires
        0 <= upto <= winners.len(),
    ensures
        assign_ranks(participants, winners, upto).len() == participants.len(),
        forall|i: int|
            0 <= i < participants.len() ==> {
                let after = #[trigger] assign_ranks(participants, winners, upto)[i];
                &&& after.wallet == participants[i].wallet
                &&& after.season_id == participants[i].season_id
                &&& after.registered_at == participants[i].registered_at
                &&& after.entry_fee_paid == participants[i].entry_fee_paid
                &&& after.claimed == participants[i].claimed
                &&& after.emergency_withdrawn == participants[i].emergency_withdrawn
            },
    decreases upto,
{
    if upto > 0 {
        lemma_assign_ranks_keeps_the_rest(participants, winners, upto - 1);
    }
}

} // verus!
