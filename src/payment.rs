use vstd::prelude::*;
use crate::account::AccountId;

verus! {

/// `floor(amount * percent / 100)`.
pub open spec fn percent_spec(amount: int, percent: int) -> int {
    amount * percent / 100
}

/// How one ticket's payment is divided.
#[derive(Clone, Copy, Debug, PartialEq, Eq, Structural)]
pub struct PaymentSplit {
    /// Routed to the platform fee account.
    pub fee_amount: u128,
    /// Kept in escrow as the prize pool.
    pub stake_amount: u128,
    /// Routed to the organizer; it absorbs every rounding remainder.
    pub organizer_amount: u128,
}

/// The split of `payment` for the given percentages.
pub open spec fn split_spec(payment: u128, fee_percent: u8, stake_percent: u8) -> PaymentSplit {
    let fee = percent_spec(payment as int, fee_percent as int);
    let stake = percent_spec(payment as int, stake_percent as int);
    PaymentSplit {
        fee_amount: fee as u128,
        stake_amount: stake as u128,
        organizer_amount: (payment - fee - stake) as u128,
    }
}

/// For percentages that sum to at most 100, the fee and the stake of a
/// payment together never exceed it.
pub proof fn lemma_split_sums(payment: u128, fee_percent: u8, stake_percent: u8)
    requires
        fee_percent as int + stake_percent as int <= 100,
    ensures
        percent_spec(payment as int, fee_percent as int) + percent_spec(payment as int, stake_percent as int)
            <= payment,
        percent_spec(payment as int, fee_percent as int) >= 0,
        percent_spec(payment as int, stake_percent as int) >= 0,
{
    assert(payment as int * fee_percent as int / 100 + payment as int * stake_percent as int / 100
        <= payment as int * (fee_percent as int + stake_percent as int) / 100) by (nonlinear_arith);
    assert(payment as int * (fee_percent as int + stake_percent as int) / 100 <= payment as int)
        by (nonlinear_arith)
        requires
            fee_percent as int + stake_percent as int <= 100,
    ;
    assert(payment as int * fee_percent as int >= 0) by (nonlinear_arith);
    assert(payment as int * stake_percent as int >= 0) by (nonlinear_arith);
}

/// Computes `floor(amount * percent / 100)` without an intermediate overflow.
fn percent_of(amount: u128, percent: u8) -> (r: u128)
    requires
        percent <= 100,
    ensures
        r as int == percent_spec(amount as int, percent as int),
        r <= amount,
{
    let q: u128 = amount / 100;
    let m: u128 = amount % 100;
    proof {
        assert(amount as int == q as int * 100 + m as int);
        assert(q as int * percent as int <= q as int * 100) by (nonlinear_arith)
            requires
                percent <= 100,
        ;
        assert(m as int * percent as int <= 99 * 100) by (nonlinear_arith)
            requires
                m < 100,
                percent <= 100,
        ;
        assert(amount as int * percent as int / 100 == q as int * percent as int + m as int
            * percent as int / 100) by (nonlinear_arith)
            requires
                amount as int == q as int * 100 + m as int,
        ;
        assert(amount as int * percent as int / 100 <= amount as int) by (nonlinear_arith)
            requires
                percent <= 100,
                amount >= 0,
        ;
    }
    q * (percent as u128) + m * (percent as u128) / 100
}

/// Divides a ticket payment into fee, stake and organizer share, with floor
/// division and the remainder going to the organizer. Nothing is created or
/// lost: the three parts add up to `payment`.
pub fn split_payment(payment: u128, fee_percent: u8, stake_percent: u8) -> (r: PaymentSplit)
    requires
        fee_percent as int + stake_percent as int <= 100,
    ensures
        r == split_spec(payment, fee_percent, stake_percent),
        r.fee_amount + r.stake_amount + r.organizer_amount == payment,
{
    let fee = percent_of(payment, fee_percent);
    let stake = percent_of(payment, stake_percent);
    proof {
        lemma_split_sums(payment, fee_percent, stake_percent);
    }
    PaymentSplit { fee_amount: fee, stake_amount: stake, organizer_amount: payment - fee - stake }
}

/// A value transfer to make.
#[derive(Clone, Copy, Debug, PartialEq, Eq)]
pub struct Transfer {
    pub to: AccountId,
    pub amount: u128,
}

/// What a ticket purchase pays out: the fee to the platform account, the
/// organizer's share to the organizer; the stake stays in escrow.
#[derive(Clone, Copy, Debug, PartialEq, Eq)]
pub struct TicketOrder {
    pub fee_account: AccountId,
    pub organizer: AccountId,
    pub split: PaymentSplit,
}

impl TicketOrder {
    /// The transfers of this order, fee first, leaving out those of zero.
    pub open spec fn transfer_seq(self) -> Seq<Transfer> {
        let fee = if self.split.fee_amount > 0 {
            seq![Transfer { to: self.fee_account, amount: self.split.fee_amount }]
        } else {
            Seq::empty()
        };
        let org = if self.split.organizer_amount > 0 {
            seq![Transfer { to: self.organizer, amount: self.split.organizer_amount }]
        } else {
            Seq::empty()
        };
        fee + org
    }

    /// The transfers to make for this order, fee first; a zero amount is not sent.
    pub fn transfers(&self) -> (r: Vec<Transfer>)
        ensures
            r@ == self.transfer_seq(),
    {
        let mut v: Vec<Transfer> = Vec::new();
        if self.split.fee_amount > 0 {
            v.push(Transfer { to: self.fee_account, amount: self.split.fee_amount });
        }
        if self.split.organizer_amount > 0 {
            v.push(Transfer { to: self.organizer, amount: self.split.organizer_amount });
        }
        proof {
            assert(v@ =~= self.transfer_seq());
        }
        v
    }
}

/// The little-endian value of four bytes.
pub open spec fn le_u32(b0: u8, b1: u8, b2: u8, b3: u8) -> int {
    b0 as int + 256 * b1 as int + 65536 * b2 as int + 16777216 * b3 as int
}

/// The seed of a block hash: its first four bytes read as a little-endian
/// unsigned 32-bit integer.
pub fn seed_from_hash(hash: &[u8; 32]) -> (r: u32)
    ensures
        r as int == le_u32(hash@[0], hash@[1], hash@[2], hash@[3]),
{
    let b0 = hash[0] as u32;
    let b1 = hash[1] as u32;
    let b2 = hash[2] as u32;
    let b3 = hash[3] as u32;
    b0 + 256 * b1 + 65536 * b2 + 16777216 * b3
}

} // verus!
