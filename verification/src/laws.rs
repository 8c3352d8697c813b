//! What holds of every state that the controller can be in, and of winner
//! assignment.

use vstd::prelude::*;
use crate::accounting::reconciles;
use crate::registry::Registry;
use crate::ledger::{
    assign_ranks, distinct_wallets, is_registered, lemma_assign_ranks_keeps_the_rest,
    position_of_wallet, record_of, with_prize,
};
use crate::error::GorbageError;
use crate::identity::Identity;
use crate::instructions::set_winners::ranked_winners;
use crate::instructions::{claim_prize, collect_fee, emergency_withdraw};
use crate::payout::{prize_of, total_prizes};
use crate::state::participant::Participant;
use crate::state::season::Winner;

verus! {

/// Between operations the vault of every season holds exactly the season's pool.
pub proof fn lemma_vault_matches_pool(registry: Registry, season_id: u64)
    requires
        registry.wf(),
        registry.has_season(season_id),
    ensures
        registry.account_of(season_id).vault.balance == registry.account_of(
            season_id,
        ).season.pool_balance,
        registry.account_of(season_id).vault.season_id == season_id,
{
}

/// Between operations the pool of every season is what its records account for:
/// the entry fees not refunded, less the fee taken, less the prizes paid.
pub proof fn lemma_pool_reconciles(registry: Registry, season_id: u64)
    requires
        registry.wf(),
        registry.has_season(season_id),
    ensures
        reconciles(
            registry.account_of(season_id).season.pool_balance as int,
            registry.account_of(season_id).season.fee_amount as int,
            registry.account_of(season_id).participants@,
        ),
{
}

/// Between operations no participant is marked as claimed without a rank and a
/// positive amount, and no participant holds an amount without a rank.
pub proof fn lemma_claimed_has_amount(
    registry: Registry,
    season_id: u64,
    wallet: Identity,
)
    requires
        registry.wf(),
        registry.has_season(season_id),
        is_registered(registry.account_of(season_id).participants@, wallet),
    ensures
        ({
            let record = record_of(registry.account_of(season_id).participants@, wallet);
            &&& record.wallet == wallet
            &&& record.season_id == season_id
            &&& record.claimed ==> record.payable_amount > 0 && record.rank > 0
            &&& record.rank == 0 ==> record.payable_amount == 0 && !record.claimed
        }),
{
    let participants = registry.account_of(season_id).participants@;
    let slot = position_of_wallet(participants, wallet);
}

/// Between operations a wallet has at most one record in a season.
pub proof fn lemma_one_record_per_wallet(
    registry: Registry,
    season_id: u64,
    i: int,
    j: int,
)
    requires
        registry.wf(),
        registry.has_season(season_id),
        0 <= i < registry.account_of(season_id).participants@.len(),
        0 <= j < registry.account_of(season_id).participants@.len(),
        registry.account_of(season_id).participants@[i].wallet == registry.account_of(
            season_id,
        ).participants@[j].wallet,
    ensures
        i == j,
{
}

/// Where the winners are different wallets, assigning all of them gives each
/// winner's record the winner's own rank and amount, and leaves every other record
/// as it was.
pub proof fn lemma_assign_ranks_distinct(
    participants: Seq<Participant>,
    winners: Seq<Winner>,
    upto: int,
)
    requires
        0 <= upto <= winners.len(),
        forall|a: int, b: int|
            0 <= a < b < winners.len() ==> (#[trigger] winners[a]).wallet != (
            #[trigger] winners[b]).wallet,
    ensures
        forall|i: int, k: int|
            0 <= i < participants.len() && 0 <= k < upto && participants[i].wallet
                == winners[k].wallet ==> #[trigger] assign_ranks(participants, winners, upto)[i]
                == with_prize(participants[i], #[trigger] winners[k]),
        forall|i: int|
            0 <= i < participants.len() && (forall|k: int|
                0 <= k < upto ==> participants[i].wallet != (#[trigger] winners[k]).wallet)
                ==> #[trigger] assign_ranks(participants, winners, upto)[i] == participants[i],
    decreases upto,
{
    if upto > 0 {
        lemma_assign_ranks_distinct(participants, winners, upto - 1);
        lemma_assign_ranks_keeps_the_rest(participants, winners, upto - 1);
        let earlier = assign_ranks(participants, winners, upto - 1);
        let after = assign_ranks(participants, winners, upto);
        assert forall|i: int, k: int|
            0 <= i < participants.len() && 0 <= k < upto && participants[i].wallet
                == winners[k].wallet implies #[trigger] after[i] == with_prize(
            participants[i],
            #[trigger] winners[k],
        ) by {
            if k == upto - 1 {
                assert forall|m: int| 0 <= m < upto - 1 implies participants[i].wallet != (
                #[trigger] winners[m]).wallet by {}
            }
        }
        assert forall|i: int|
            0 <= i < participants.len() && (forall|k: int|
                0 <= k < upto ==> participants[i].wallet != (
                #[trigger] winners[k]).wallet) implies #[trigger] after[i]
            == participants[i] by {
            assert forall|k: int| 0 <= k < upto - 1 implies participants[i].wallet != (
            #[trigger] winners[k]).wallet by {}
        }
    }
}

/// The amounts frozen for the ranks of one to three winners never add up to more
/// than the pool they are taken from, and they leave less than one unit per
/// winner unassigned.
pub proof fn lemma_frozen_amounts_within_pool(pool: u64, winner_count: int)
    requires
        1 <= winner_count <= 3,
    ensures
        0 <= total_prizes(pool as int, winner_count) <= pool,
        pool - total_prizes(pool as int, winner_count) < winner_count,
        forall|rank: int| 0 <= #[trigger] prize_of(pool as int, winner_count, rank) <= pool,
{
    assert forall|rank: int| 0 <= #[trigger] prize_of(pool as int, winner_count, rank)
        <= pool by {}
}

/// A wallet registers once: in the state after a registration that went through,
/// every further registration of the same wallet in the same season is refused,
/// at any time.
pub proof fn lemma_registered_wallet_is_refused(
    before: Registry,
    after: Registry,
    caller: Identity,
    season_id: u64,
    now: i64,
    later: int,
)
    requires
        before.wf(),
        after.wf(),
        before.registration_refusal(caller, season_id, now as int) is None,
        after.changed_only(before, season_id),
        after.account_of(season_id).registered(before.account_of(season_id), caller, now),
    ensures
        is_registered(after.account_of(season_id).participants@, caller),
        after.registration_refusal(caller, season_id, later) is Some,
        after.account_of(season_id).season.participant_count == before.account_of(
            season_id,
        ).season.participant_count + 1,
        after.account_of(season_id).season.pool_balance == before.account_of(
            season_id,
        ).season.pool_balance + before.account_of(season_id).season.entry_fee,
{
    let records = after.account_of(season_id).participants@;
}

/// A prize is paid once: in the state after a claim that went through, a further
/// claim by the same wallet in the same season is refused with
/// `PrizeAlreadyClaimed`.
pub proof fn lemma_second_claim_is_refused(
    before: Registry,
    after: Registry,
    caller: Identity,
    season_id: u64,
)
    requires
        before.wf(),
        after.wf(),
        before.claim_refusal(caller, season_id) is None,
        after.changed_only(before, season_id),
        after.account_of(season_id).prize_claimed(before.account_of(season_id), caller),
    ensures
        after.claim_refusal(caller, season_id) == Some(GorbageError::PrizeAlreadyClaimed),
{
    let earlier = before.account_of(season_id);
    let records = after.account_of(season_id).participants@;
    let slot = position_of_wallet(earlier.participants@, caller);
    lemma_record_at(records, slot);
    claim_prize::lemma_claim_is_final(
        earlier.season,
        earlier.participants@[slot],
        earlier.vault,
        caller,
        after.account_of(season_id).vault,
    );
}

/// A record that is marked as claimed stays marked, and its owner stays refused,
/// in every state that continues the state in which it was marked.
pub proof fn lemma_claimed_stays_claimed(
    before: Registry,
    after: Registry,
    caller: Identity,
    season_id: u64,
)
    requires
        before.wf(),
        after.wf(),
        after.follows(before),
        before.has_season(season_id),
        after.has_season(season_id),
        is_registered(before.account_of(season_id).participants@, caller),
        record_of(before.account_of(season_id).participants@, caller).claimed,
    ensures
        is_registered(after.account_of(season_id).participants@, caller),
        record_of(after.account_of(season_id).participants@, caller).claimed,
        record_of(after.account_of(season_id).participants@, caller).payable_amount > 0,
        after.claim_refusal(caller, season_id) is Some,
{
    let earlier = before.account_of(season_id).participants@;
    let records = after.account_of(season_id).participants@;
    let slot = position_of_wallet(earlier, caller);
    lemma_record_at(records, slot);
}

/// A record that is marked as refunded stays marked, and its owner stays refused,
/// in every state that continues the state in which it was marked.
pub proof fn lemma_refunded_stays_refunded(
    before: Registry,
    after: Registry,
    caller: Identity,
    season_id: u64,
)
    requires
        before.wf(),
        after.wf(),
        after.follows(before),
        before.has_season(season_id),
        after.has_season(season_id),
        is_registered(before.account_of(season_id).participants@, caller),
        record_of(before.account_of(season_id).participants@, caller).emergency_withdrawn,
    ensures
        is_registered(after.account_of(season_id).participants@, caller),
        record_of(after.account_of(season_id).participants@, caller).emergency_withdrawn,
        after.withdrawal_refusal(caller, season_id) is Some,
{
    let earlier = before.account_of(season_id).participants@;
    let records = after.account_of(season_id).participants@;
    let slot = position_of_wallet(earlier, caller);
    lemma_record_at(records, slot);
}

/// The fee is taken once: in every state that continues a state in which the
/// season's fee was taken, the fee is as it was and the authority's collection is
/// refused with `FeeAlreadyCollected`.
pub proof fn lemma_fee_stays_collected(
    before: Registry,
    after: Registry,
    season_id: u64,
    later: int,
)
    requires
        before.wf(),
        after.wf(),
        after.follows(before),
        before.has_season(season_id),
        after.has_season(season_id),
        before.account_of(season_id).season.fee_collected,
    ensures
        after.account_of(season_id).season.fee_collected,
        after.account_of(season_id).season.fee_amount == before.account_of(
            season_id,
        ).season.fee_amount,
        after.fee_refusal(after.account_of(season_id).season.authority, season_id, later) == Some(
            GorbageError::FeeAlreadyCollected,
        ),
{
}

/// An entry fee is refunded once: in the state after a withdrawal that went
/// through, a further withdrawal by the same wallet in the same season is refused
/// with `PrizeAlreadyClaimed`.
pub proof fn lemma_second_refund_is_refused(
    before: Registry,
    after: Registry,
    caller: Identity,
    season_id: u64,
)
    requires
        before.wf(),
        after.wf(),
        before.withdrawal_refusal(caller, season_id) is None,
        after.changed_only(before, season_id),
        after.account_of(season_id).refunded(before.account_of(season_id), caller),
    ensures
        after.withdrawal_refusal(caller, season_id) == Some(GorbageError::PrizeAlreadyClaimed),
        after.account_of(season_id).vault.balance + record_of(
            before.account_of(season_id).participants@,
            caller,
        ).entry_fee_paid == before.account_of(season_id).vault.balance,
{
    let earlier = before.account_of(season_id);
    let records = after.account_of(season_id).participants@;
    let slot = position_of_wallet(earlier.participants@, caller);
    lemma_record_at(records, slot);
    emergency_withdraw::lemma_refund_is_final(
        earlier.season,
        earlier.participants@[slot],
        earlier.vault,
        caller,
        after.account_of(season_id).vault,
    );
}

/// In the state after a fee collection that went through, what was taken and
/// what is left make up the pool as it was, and a further collection by the same
/// caller is refused with `FeeAlreadyCollected`.
pub proof fn lemma_second_fee_is_refused(
    before: Registry,
    after: Registry,
    caller: Identity,
    season_id: u64,
    now: int,
    later: int,
)
    requires
        before.wf(),
        after.wf(),
        before.fee_refusal(caller, season_id, now) is None,
        after.changed_only(before, season_id),
        after.account_of(season_id).fee_taken(before.account_of(season_id)),
    ensures
        after.fee_refusal(caller, season_id, later) == Some(GorbageError::FeeAlreadyCollected),
        after.account_of(season_id).season.pool_balance + after.account_of(
            season_id,
        ).season.fee_amount == before.account_of(season_id).season.pool_balance,
{
    let earlier = before.account_of(season_id);
    collect_fee::lemma_fee_is_taken_once(
        earlier.season,
        earlier.vault,
        caller,
        now,
        after.account_of(season_id).vault,
        later,
    );
}

/// Among records with different wallets, the record of a wallet is the one at
/// any position that holds that wallet.
pub proof fn lemma_record_at(participants: Seq<Participant>, slot: int)
    requires
        0 <= slot < participants.len(),
        distinct_wallets(participants),
    ensures
        is_registered(participants, participants[slot].wallet),
        position_of_wallet(participants, participants[slot].wallet) == slot,
        record_of(participants, participants[slot].wallet) == participants[slot],
{
}

/// The sum of the amounts frozen for `winners`.
pub open spec fn frozen_total(winners: Seq<Winner>) -> int
    decreases winners.len(),
{
    if winners.len() == 0 {
        0
    } else {
        frozen_total(winners.drop_last()) + winners.last().payable_amount
    }
}

/// The amounts frozen when one to three winners are assigned add up to what the
/// payout table gives all ranks together: never more than the pool, and less than
/// one unit per winner below it. What is left is paid to nobody.
pub proof fn lemma_frozen_total_within_pool(wallets: Seq<Identity>, pool: u64)
    requires
        1 <= wallets.len() <= 3,
    ensures
        frozen_total(ranked_winners(wallets, pool as int)) == total_prizes(
            pool as int,
            wallets.len() as int,
        ),
        frozen_total(ranked_winners(wallets, pool as int)) <= pool,
        pool - frozen_total(ranked_winners(wallets, pool as int)) < wallets.len(),
{
    let winners = ranked_winners(wallets, pool as int);
    lemma_frozen_amounts_within_pool(pool, wallets.len() as int);
    reveal_with_fuel(frozen_total, 4);
    if winners.len() >= 2 {
        let shorter = winners.drop_last();
        assert(shorter.last() == winners[shorter.len() - 1]);
        if shorter.len() >= 2 {
            assert(shorter.drop_last().last() == winners[0]);
        }
    }
}

} // verus!
