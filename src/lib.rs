//! A raffle ledger: organizers open raffles, participants buy single tickets,
//! the organizer closes a raffle and a winner is drawn, and the winner claims
//! the escrowed prize.
//!
//! Everything that touches the outside world (the caller's identity, attached
//! value, fund transfers, block data, events, storage) is handed in or out as
//! plain values, so every rule of the ledger is stated and proved here.
pub mod account;
pub mod types;
pub mod payment;
pub mod engine;
pub mod laws;

pub use account::AccountId;
pub use types::{RaffleInfo, RaffleCreated, TicketPurchased, RaffleClosed, RaffleError};
pub use payment::{PaymentSplit, Transfer, TicketOrder, split_payment, seed_from_hash};
pub use engine::{Raffle, RaffleState, MIN_TICKET_PRICE, MAX_TICKETS};

