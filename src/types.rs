use vstd::prelude::*;
use crate::account::AccountId;

verus! {

/// The record kept for one raffle.
#[derive(Debug)]
pub struct RaffleInfo {
    pub organizer: AccountId,
    pub title: String,
    pub max_tickets: u32,
    pub ticket_price: u128,
    pub fee_percent: u8,
    pub stake_percent: u8,
    pub tickets_sold: u32,
    pub winner: Option<AccountId>,
    pub is_closed: bool,
    pub total_stake: u128,
    pub created_at: u64,
}

impl RaffleInfo {
    /// A copy of the record, field for field.
    pub fn duplicate(&self) -> (r: RaffleInfo)
        ensures
            r == *self,
    {
        RaffleInfo {
            organizer: self.organizer,
            title: self.title.clone(),
            max_tickets: self.max_tickets,
            ticket_price: self.ticket_price,
            fee_percent: self.fee_percent,
            stake_percent: self.stake_percent,
            tickets_sold: self.tickets_sold,
            winner: self.winner,
            is_closed: self.is_closed,
            total_stake: self.total_stake,
            created_at: self.created_at,
        }
    }
}

/// Announces a new raffle.
#[derive(Debug)]
pub struct RaffleCreated {
    pub raffle_id: u32,
    pub organizer: AccountId,
    pub title: String,
    pub max_tickets: u32,
    pub ticket_price: u128,
}

/// Announces a sold ticket; `ticket_number` counts from 1.
#[derive(Clone, Copy, Debug, PartialEq, Eq)]
pub struct TicketPurchased {
    pub raffle_id: u32,
    pub buyer: AccountId,
    pub ticket_number: u32,
    pub amount_paid: u128,
}

/// Announces a closed raffle, its winner and the escrowed prize.
#[derive(Clone, Copy, Debug, PartialEq, Eq)]
pub struct RaffleClosed {
    pub raffle_id: u32,
    pub winner: AccountId,
    pub prize_amount: u128,
}

/// Why an operation was refused.
#[derive(Clone, Copy, Debug, PartialEq, Eq, Structural)]
pub enum RaffleError {
    InvalidParameters,
    RaffleNotFound,
    RaffleClosed,
    NoTicketsAvailable,
    AlreadyParticipated,
    OnlyOrganizer,
    OnlyWinner,
    NoPrizeToClaim,
    TransferFailed,
    InsufficientFunds,
    OnlyPlatformAuthority,
}

} // verus!
