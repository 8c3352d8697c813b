//! What a season's pool must amount to, summed over its participants' records.

use vstd::prelude::*;
use crate::state::participant::Participant;

verus! {

/// The part of a participant's entry fee that the season still holds: all of it,
/// unless it was refunded.
pub open spec fn held_fee(p: Participant) -> int {
    if p.emergency_withdrawn {
        0
    } else {
        p.entry_fee_paid as int
    }
}

/// The prize that a participant has been paid: the amount of their rank once they
/// have claimed it.
pub open spec fn paid_prize(p: Participant) -> int {
    if p.claimed {
        p.payable_amount as int
    } else {
        0
    }
}

/// The sum of the entry fees that have not been refunded.
pub open spec fn held_fees(participants: Seq<Participant>) -> int
    decreases participants.len(),
{
    if participants.len() == 0 {
        0
    } else {
        held_fees(participants.drop_last()) + held_fee(participants.last())
    }
}

/// The sum of the prizes that have been paid.
pub open spec fn paid_prizes(participants: Seq<Participant>) -> int
    decreases participants.len(),
{
    if participants.len() == 0 {
        0
    } else {
        paid_prizes(participants.drop_last()) + paid_prize(participants.last())
    }
}

/// Whether `pool` is what the records account for: the entry fees not refunded,
/// less the fee taken, less the prizes paid.
pub open spec fn reconciles(pool: int, fee_amount: int, participants: Seq<Participant>) -> bool {
    pool == held_fees(participants) - fee_amount - paid_prizes(participants)
}

/// A new record adds its own terms to both sums.
pub proof fn lemma_sums_push(participants: Seq<Participant>, p: Participant)
    ensures
        held_fees(participants.push(p)) == held_fees(participants) + held_fee(p),
        paid_prizes(participants.push(p)) == paid_prizes(participants) + paid_prize(p),
{
    assert(participants.push(p).drop_last() =~= participants);
}

/// Rewriting one record exchanges its terms in both sums.
pub proof fn lemma_sums_update(participants: Seq<Participant>, i: int, p: Participant)
    requires
        0 <= i < participants.len(),
    ensures
        held_fees(participants.update(i, p)) == held_fees(participants) - held_fee(
            participants[i],
        ) + held_fee(p),
        paid_prizes(participants.update(i, p)) == paid_prizes(participants) - paid_prize(
            participants[i],
        ) + paid_prize(p),
    decreases participants.len(),
{
    let updated = participants.update(i, p);
    if i == participants.len() - 1 {
        assert(updated.drop_last() =~= participants.drop_last());
    } else {
        assert(updated.drop_last() =~= participants.drop_last().update(i, p));
        lemma_sums_update(participants.drop_last(), i, p);
    }
}

/// Records that agree, one by one, in what they hold and what they were paid have
/// the same sums.
pub proof fn lemma_sums_agree(a: Seq<Participant>, b: Seq<Participant>)
    requires
        a.len() == b.len(),
        forall|i: int|
            0 <= i < a.len() ==> held_fee(#[trigger] a[i]) == held_fee(b[i]) && paid_prize(a[i])
                == paid_prize(b[i]),
    ensures
        held_fees(a) == held_fees(b),
        paid_prizes(a) == paid_prizes(b),
    decreases a.len(),
{
    if a.len() > 0 {
        lemma_sums_agree(a.drop_last(), b.drop_last());
    }
}

} // verus!
