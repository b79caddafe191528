//! Properties of the ledger that span several operations, stated over the
//! abstract state that the operations' contracts speak of.
use vstd::prelude::*;
use crate::account::AccountId;
use crate::types::{RaffleInfo, RaffleError};
use crate::payment::lemma_split_sums;
use crate::engine::RaffleState;

verus! {

/// Creating a raffle adds exactly one, and no other operation adds or removes
/// any (each of them acts on an existing raffle). Together with `create_raffle` handing out the number of raffles as the
/// new id, and `new` starting from none, ids run 0, 1, 2, ...
pub proof fn lemma_raffle_count_steps(
    s: RaffleState,
    info: RaffleInfo,
    id: u32,
    user: AccountId,
    payment: u128,
)
    requires
        s.has(id),
    ensures
        s.after_create(info).raffles.len() == s.raffles.len() + 1,
        s.after_purchase(id, user, payment).raffles.len() == s.raffles.len(),
        s.after_close(id, user).raffles.len() == s.raffles.len(),
        s.after_claim(id).raffles.len() == s.raffles.len(),
{
}

/// Raffle ids are unique and strictly increasing: the id handed out on `s1`
/// (its number of raffles) is below the id handed out on any later state `s2`,
/// which holds at least the raffles of the state after the first creation.
pub proof fn lemma_raffle_ids_increase(s1: RaffleState, info: RaffleInfo, s2: RaffleState)
    requires
        s2.raffles.len() >= s1.after_create(info).raffles.len(),
    ensures
        s1.raffles.len() < s2.raffles.len(),
{
}

/// In a consistent ledger every raffle has sold exactly as many tickets as it
/// has participants.
pub proof fn lemma_tickets_match_participants(s: RaffleState)
    requires
        s.well_formed(),
    ensures
        forall|i: int|
            0 <= i < s.raffles.len() ==> #[trigger] s.raffles[i].tickets_sold == s.participants[i].len(),
{
    assert forall|i: int| 0 <= i < s.raffles.len() implies #[trigger] s.raffles[i].tickets_sold
        == s.participants[i].len() by {
        assert(s.raffle_ok(i));
    }
}

/// An identity holds at most one ticket per raffle: after it buys one, it is
/// among the participants, the participants stay free of repeats, and any
/// further purchase by it is refused; with the raffle still open, tickets
/// left and the exact price, the refusal is `AlreadyParticipated`.
pub proof fn lemma_one_ticket_per_identity(
    s: RaffleState,
    id: u32,
    buyer: AccountId,
    payment: u128,
    payment2: u128,
)
    requires
        s.well_formed(),
        s.purchase_error(id, buyer, payment) is None,
    ensures
        s.after_purchase(id, buyer, payment).parts(id).contains(buyer),
        s.after_purchase(id, buyer, payment).parts(id).no_duplicates(),
        s.after_purchase(id, buyer, payment).purchase_error(id, buyer, payment2) is Some,
        ({
            let t = s.after_purchase(id, buyer, payment);
            !t.info(id).is_closed && t.info(id).tickets_sold < t.info(id).max_tickets
                && payment2 == t.info(id).ticket_price ==> t.purchase_error(id, buyer, payment2)
                == Some(RaffleError::AlreadyParticipated)
        }),
{
    let t = s.after_purchase(id, buyer, payment);
    assert(s.raffle_ok(id as int));
    assert(t.parts(id) == s.parts(id).push(buyer));
    assert(t.parts(id).last() == buyer);
}

/// A payment other than the ticket price, on an open raffle with tickets
/// left, is refused with `InsufficientFunds`; `buy_ticket` then leaves the
/// state as it was and `ticket_order` hands out no transfer.
pub proof fn lemma_wrong_payment_rejected(s: RaffleState, id: u32, buyer: AccountId, payment: u128)
    requires
        s.has(id),
        !s.info(id).is_closed,
        s.info(id).tickets_sold < s.info(id).max_tickets,
        payment != s.info(id).ticket_price,
    ensures
        s.purchase_error(id, buyer, payment) == Some(RaffleError::InsufficientFunds),
{
}

/// A purchase creates and destroys no value: the organizer's share, the fee
/// and the growth of the escrow add up to the payment, and no share is
/// negative.
pub proof fn lemma_purchase_conserves_value(s: RaffleState, id: u32, buyer: AccountId, payment: u128)
    requires
        s.well_formed(),
        s.purchase_error(id, buyer, payment) is None,
        s.info(id).total_stake + s.order_for(id, payment).split.stake_amount <= u128::MAX,
    ensures
        ({
            let split = s.order_for(id, payment).split;
            let grown = s.after_purchase(id, buyer, payment).info(id).total_stake - s.info(id).total_stake;
            &&& split.organizer_amount + split.fee_amount + grown == payment
            &&& payment - split.fee_amount - split.stake_amount >= 0
        }),
{
    assert(s.raffle_ok(id as int));
    lemma_split_sums(payment, s.info(id).fee_percent, s.info(id).stake_percent);
}

/// Closing needs a sold ticket: with none, the organizer's call on an open
/// raffle fails with `InvalidParameters`; with some, it succeeds, and once
/// closed a second call fails with `RaffleClosed`.
pub proof fn lemma_close_once(s: RaffleState, id: u32, caller: AccountId, hash: Seq<u8>)
    requires
        s.well_formed(),
        s.has(id),
        s.info(id).organizer == caller,
        !s.info(id).is_closed,
    ensures
        s.info(id).tickets_sold == 0 ==> s.close_error(id, caller) == Some(RaffleError::InvalidParameters),
        s.info(id).tickets_sold > 0 ==> s.close_error(id, caller) is None && s.after_close(
            id,
            s.drawn(id, hash),
        ).close_error(id, caller) == Some(RaffleError::RaffleClosed),
{
}

/// A prize is paid at most once: after a successful claim every further claim
/// on that raffle fails, the winner's with `NoPrizeToClaim`.
pub proof fn lemma_claim_once(s: RaffleState, id: u32, caller: AccountId, other: AccountId)
    requires
        s.claim_error(id, caller) is None,
    ensures
        s.after_claim(id).claim_error(id, caller) == Some(RaffleError::NoPrizeToClaim),
        s.after_claim(id).claim_error(id, other) is Some,
{
}

} // verus!
