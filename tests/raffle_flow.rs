use raffle::{
    seed_from_hash, split_payment, AccountId, Raffle, RaffleClosed, RaffleError, TicketPurchased,
    Transfer,
};

fn alice() -> AccountId {
    AccountId([1u8; 32])
}

fn bob() -> AccountId {
    AccountId([2u8; 32])
}

fn charlie() -> AccountId {
    AccountId([3u8; 32])
}

fn account(n: u8) -> AccountId {
    let mut b = [0u8; 32];
    b[0] = n;
    b[31] = 0xAA;
    AccountId(b)
}

/// A ledger run by alice, with fees paid to bob, holding one raffle that
/// alice organizes.
fn ledger_with_raffle(max_tickets: u32) -> Raffle {
    let mut raffle = Raffle::new(alice(), bob());
    raffle
        .create_raffle(alice(), "Test Raffle".to_string(), max_tickets, 1_000_000_000, 5, 10, 7)
        .unwrap();
    raffle
}

#[test]
fn test_create_raffle() {
    let mut raffle = Raffle::new(alice(), bob());
    let result = raffle.create_raffle(alice(), "Test Raffle".to_string(), 100, 1_000_000_000, 5, 10, 0);
    assert!(result.is_ok());
    let raffle_id = result.unwrap().raffle_id;
    assert_eq!(raffle_id, 0);
    let raffle_info = raffle.get_raffle_info(raffle_id).unwrap();
    assert_eq!(raffle_info.title, "Test Raffle");
    assert_eq!(raffle_info.max_tickets, 100);
    assert_eq!(raffle_info.ticket_price, 1_000_000_000);
}

#[test]
fn test_buy_ticket() {
    let mut raffle = Raffle::new(alice(), bob());
    let raffle_id = raffle
        .create_raffle(alice(), "Test Raffle".to_string(), 100, 1_000_000_000, 5, 10, 0)
        .unwrap()
        .raffle_id;
    let result = raffle.buy_ticket(raffle_id, alice(), 1_000_000_000, true);
    assert!(result.is_ok());
    assert!(raffle.has_user_participated(raffle_id, alice()));
    let raffle_info = raffle.get_raffle_info(raffle_id).unwrap();
    assert_eq!(raffle_info.tickets_sold, 1);
}

#[test]
fn create_event_and_fresh_record() {
    let mut raffle = Raffle::new(alice(), bob());
    let ev = raffle.create_raffle(charlie(), "Spring".to_string(), 10, 2_000_000_000, 0, 50, 42).unwrap();
    assert_eq!(ev.raffle_id, 0);
    assert_eq!(ev.organizer, charlie());
    assert_eq!(ev.title, "Spring");
    assert_eq!(ev.max_tickets, 10);
    assert_eq!(ev.ticket_price, 2_000_000_000);
    let info = raffle.get_raffle_info(0).unwrap();
    assert_eq!(info.organizer, charlie());
    assert_eq!(info.tickets_sold, 0);
    assert_eq!(info.winner, None);
    assert!(!info.is_closed);
    assert_eq!(info.total_stake, 0);
    assert_eq!(info.created_at, 42);
    assert_eq!(info.fee_percent, 0);
    assert_eq!(info.stake_percent, 50);
    assert!(raffle.get_raffle_participants(0).is_empty());
}

#[test]
fn raffle_ids_start_at_zero_and_increase() {
    let mut raffle = Raffle::new(alice(), bob());
    assert_eq!(raffle.get_raffle_count(), 0);
    for expected in 0u32..5 {
        let ev = raffle.create_raffle(alice(), "R".to_string(), 1, 1_000_000_000, 0, 0, 0).unwrap();
        assert_eq!(ev.raffle_id, expected);
        assert_eq!(raffle.get_raffle_count(), expected + 1);
    }
}

#[test]
fn create_rejects_invalid_parameters() {
    let mut raffle = Raffle::new(alice(), bob());
    let cases: [(u32, u128, u8, u8); 6] = [
        (0, 1_000_000_000, 5, 10),
        (10001, 1_000_000_000, 5, 10),
        (100, 999_999_999, 5, 10),
        (100, 1_000_000_000, 21, 10),
        (100, 1_000_000_000, 5, 51),
        (100, 1_000_000_000, 20, 51),
    ];
    for (max, price, fee, stake) in cases {
        let r = raffle.create_raffle(alice(), "x".to_string(), max, price, fee, stake, 0);
        assert_eq!(r.unwrap_err(), RaffleError::InvalidParameters);
    }
    assert_eq!(raffle.get_raffle_count(), 0);
    // The edges themselves are accepted.
    assert!(raffle.create_raffle(alice(), "x".to_string(), 10000, 1_000_000_000, 20, 50, 0).is_ok());
    assert!(raffle.create_raffle(alice(), "x".to_string(), 1, 1_000_000_000, 20, 50, 0).is_ok());
    assert_eq!(raffle.get_raffle_count(), 2);
}

#[test]
fn fee_and_stake_sum_over_seventy_rejected() {
    // Each percentage lies within its own bound, but not their sum.
    let mut raffle = Raffle::new(alice(), bob());
    let r = raffle.create_raffle(alice(), "x".to_string(), 5, 1_000_000_000, 21, 50, 0);
    assert_eq!(r.unwrap_err(), RaffleError::InvalidParameters);
    let r = raffle.create_raffle(alice(), "x".to_string(), 5, 1_000_000_000, 20, 50, 0);
    assert!(r.is_ok());
}

#[test]
fn purchase_scenario_splits_payment() {
    let mut raffle = Raffle::new(alice(), bob());
    let id = raffle
        .create_raffle(alice(), "Test Raffle".to_string(), 100, 1_000_000_000, 5, 10, 0)
        .unwrap()
        .raffle_id;
    assert_eq!(id, 0);
    let order = raffle.ticket_order(0, charlie(), 1_000_000_000).unwrap();
    assert_eq!(order.split.fee_amount, 50_000_000);
    assert_eq!(order.split.stake_amount, 100_000_000);
    assert_eq!(order.split.organizer_amount, 850_000_000);
    assert_eq!(
        order.transfers(),
        vec![
            Transfer { to: bob(), amount: 50_000_000 },
            Transfer { to: alice(), amount: 850_000_000 },
        ]
    );
    let ev = raffle.buy_ticket(0, charlie(), 1_000_000_000, true).unwrap();
    assert_eq!(
        ev,
        TicketPurchased { raffle_id: 0, buyer: charlie(), ticket_number: 1, amount_paid: 1_000_000_000 }
    );
    let info = raffle.get_raffle_info(0).unwrap();
    assert_eq!(info.tickets_sold, 1);
    assert_eq!(info.total_stake, 100_000_000);
    assert_eq!(raffle.get_raffle_participants(0), vec![charlie()]);
}

#[test]
fn split_conserves_value() {
    for payment in [0u128, 1, 99, 100, 101, 1_000_000_007, u128::MAX] {
        for (fee, stake) in [(0u8, 0u8), (20, 50), (7, 13), (20, 0), (0, 50), (19, 51)] {
            let s = split_payment(payment, fee, stake);
            assert_eq!(s.fee_amount + s.stake_amount + s.organizer_amount, payment);
        }
    }
    let s = split_payment(1_000_000_007, 7, 13);
    assert_eq!(s.fee_amount, 70_000_000);
    assert_eq!(s.stake_amount, 130_000_000);
    assert_eq!(s.organizer_amount, 800_000_007);
    let s = split_payment(u128::MAX, 20, 50);
    assert_eq!(s.fee_amount, u128::MAX / 100 * 20 + (u128::MAX % 100) * 20 / 100);
}

#[test]
fn zero_fee_transfer_is_skipped() {
    let mut raffle = Raffle::new(alice(), bob());
    raffle.create_raffle(alice(), "x".to_string(), 5, 1_000_000_000, 0, 50, 0).unwrap();
    let order = raffle.ticket_order(0, charlie(), 1_000_000_000).unwrap();
    assert_eq!(order.transfers(), vec![Transfer { to: alice(), amount: 500_000_000 }]);
}

#[test]
fn sold_out_raffle_rejects_purchase() {
    let mut raffle = ledger_with_raffle(2);
    raffle.buy_ticket(0, account(1), 1_000_000_000, true).unwrap();
    raffle.buy_ticket(0, account(2), 1_000_000_000, true).unwrap();
    assert_eq!(raffle.buy_ticket(0, account(3), 1_000_000_000, true), Err(RaffleError::NoTicketsAvailable));
    assert_eq!(raffle.get_raffle_info(0).unwrap().tickets_sold, 2);
}

#[test]
fn purchase_errors_in_order() {
    let mut raffle = ledger_with_raffle(3);
    assert_eq!(raffle.buy_ticket(1, charlie(), 1_000_000_000, true), Err(RaffleError::RaffleNotFound));
    assert_eq!(raffle.buy_ticket(0, charlie(), 999, true), Err(RaffleError::InsufficientFunds));
    assert_eq!(raffle.buy_ticket(0, charlie(), 1_000_000_001, true), Err(RaffleError::InsufficientFunds));
    assert!(!raffle.has_user_participated(0, charlie()));
    assert_eq!(raffle.get_raffle_info(0).unwrap().tickets_sold, 0);
    raffle.buy_ticket(0, charlie(), 1_000_000_000, true).unwrap();
    assert_eq!(raffle.buy_ticket(0, charlie(), 1_000_000_000, true), Err(RaffleError::AlreadyParticipated));
    assert_eq!(raffle.ticket_order(0, charlie(), 1_000_000_000), Err(RaffleError::AlreadyParticipated));
    assert_eq!(raffle.get_raffle_participants(0), vec![charlie()]);
    raffle.close_raffle(0, alice(), [0u8; 32]).unwrap();
    assert_eq!(raffle.buy_ticket(0, bob(), 5, true), Err(RaffleError::RaffleClosed));
}

#[test]
fn failed_transfer_leaves_purchase_undone() {
    let mut raffle = ledger_with_raffle(3);
    assert_eq!(raffle.buy_ticket(0, charlie(), 1_000_000_000, false), Err(RaffleError::TransferFailed));
    let info = raffle.get_raffle_info(0).unwrap();
    assert_eq!(info.tickets_sold, 0);
    assert_eq!(info.total_stake, 0);
    assert!(!raffle.has_user_participated(0, charlie()));
    assert!(raffle.buy_ticket(0, charlie(), 1_000_000_000, true).is_ok());
}

#[test]
fn tickets_sold_tracks_participants() {
    let mut raffle = ledger_with_raffle(10);
    for n in 1u8..=6 {
        raffle.buy_ticket(0, account(n), 1_000_000_000, true).unwrap();
        let info = raffle.get_raffle_info(0).unwrap();
        assert_eq!(info.tickets_sold as usize, raffle.get_raffle_participants(0).len());
        assert_eq!(info.total_stake, 100_000_000 * n as u128);
    }
    let _ = raffle.buy_ticket(0, account(3), 1_000_000_000, true);
    let info = raffle.get_raffle_info(0).unwrap();
    assert_eq!(info.tickets_sold as usize, raffle.get_raffle_participants(0).len());
}

#[test]
fn non_organizer_cannot_close() {
    let mut raffle = ledger_with_raffle(10);
    raffle.buy_ticket(0, charlie(), 1_000_000_000, true).unwrap();
    assert_eq!(raffle.close_raffle(0, bob(), [0u8; 32]), Err(RaffleError::OnlyOrganizer));
    let info = raffle.get_raffle_info(0).unwrap();
    assert!(!info.is_closed);
    assert_eq!(info.winner, None);
    assert_eq!(info.tickets_sold, 1);
}

#[test]
fn close_needs_tickets_and_happens_once() {
    let mut raffle = ledger_with_raffle(10);
    assert_eq!(raffle.close_raffle(0, alice(), [0u8; 32]), Err(RaffleError::InvalidParameters));
    assert_eq!(raffle.close_raffle(3, alice(), [0u8; 32]), Err(RaffleError::RaffleNotFound));
    for n in 1u8..=3 {
        raffle.buy_ticket(0, account(n), 1_000_000_000, true).unwrap();
    }
    // Seed 7 (little-endian 07 00 00 00) picks index 7 % 3 = 1.
    let mut hash = [0u8; 32];
    hash[0] = 7;
    let ev = raffle.close_raffle(0, alice(), hash).unwrap();
    assert_eq!(ev, RaffleClosed { raffle_id: 0, winner: account(2), prize_amount: 300_000_000 });
    let info = raffle.get_raffle_info(0).unwrap();
    assert!(info.is_closed);
    assert_eq!(info.winner, Some(account(2)));
    assert_eq!(info.total_stake, 300_000_000);
    assert_eq!(raffle.close_raffle(0, alice(), hash), Err(RaffleError::RaffleClosed));
}

#[test]
fn seed_reads_four_bytes_little_endian() {
    let mut hash = [0xFFu8; 32];
    hash[0] = 0x01;
    hash[1] = 0x02;
    hash[2] = 0x03;
    hash[3] = 0x04;
    assert_eq!(seed_from_hash(&hash), 0x0403_0201);
    assert_eq!(seed_from_hash(&[0xFFu8; 32]), u32::MAX);
}

#[test]
fn winner_index_uses_whole_seed() {
    let mut raffle = ledger_with_raffle(10);
    for n in 1u8..=5 {
        raffle.buy_ticket(0, account(n), 1_000_000_000, true).unwrap();
    }
    // Seed 0x0000_0100 = 256, and 256 % 5 = 1.
    let mut hash = [0u8; 32];
    hash[1] = 1;
    let ev = raffle.close_raffle(0, alice(), hash).unwrap();
    assert_eq!(ev.winner, account(2));
}

#[test]
fn prize_claimed_once() {
    let mut raffle = ledger_with_raffle(10);
    raffle.buy_ticket(0, account(1), 1_000_000_000, true).unwrap();
    raffle.buy_ticket(0, account(2), 1_000_000_000, true).unwrap();
    assert_eq!(raffle.claim_prize(0, account(1), true), Err(RaffleError::InvalidParameters));
    raffle.close_raffle(0, alice(), [0u8; 32]).unwrap();
    assert_eq!(raffle.get_raffle_info(0).unwrap().winner, Some(account(1)));
    assert_eq!(raffle.claim_prize(0, account(2), true), Err(RaffleError::OnlyWinner));
    assert_eq!(raffle.claim_prize(5, account(1), true), Err(RaffleError::RaffleNotFound));
    assert_eq!(raffle.prize_payout(0, account(1)), Ok(200_000_000));
    assert_eq!(raffle.claim_prize(0, account(1), false), Err(RaffleError::TransferFailed));
    assert_eq!(raffle.get_raffle_info(0).unwrap().total_stake, 200_000_000);
    assert_eq!(raffle.claim_prize(0, account(1), true), Ok(()));
    assert_eq!(raffle.get_raffle_info(0).unwrap().total_stake, 0);
    assert_eq!(raffle.claim_prize(0, account(1), true), Err(RaffleError::NoPrizeToClaim));
    assert_eq!(raffle.prize_payout(0, account(1)), Err(RaffleError::NoPrizeToClaim));
}

#[test]
fn zero_stake_raffle_has_no_prize() {
    let mut raffle = Raffle::new(alice(), bob());
    raffle.create_raffle(alice(), "x".to_string(), 5, 1_000_000_000, 10, 0, 0).unwrap();
    raffle.buy_ticket(0, charlie(), 1_000_000_000, true).unwrap();
    raffle.close_raffle(0, alice(), [9u8; 32]).unwrap();
    assert_eq!(raffle.claim_prize(0, charlie(), true), Err(RaffleError::NoPrizeToClaim));
}

#[test]
fn only_authority_moves_fee_account() {
    let mut raffle = Raffle::new(alice(), bob());
    assert_eq!(raffle.get_platform_authority(), alice());
    assert_eq!(
        raffle.update_platform_fee_account(charlie(), charlie()),
        Err(RaffleError::OnlyPlatformAuthority)
    );
    raffle.create_raffle(alice(), "x".to_string(), 5, 1_000_000_000, 5, 10, 0).unwrap();
    assert_eq!(raffle.ticket_order(0, account(9), 1_000_000_000).unwrap().fee_account, bob());
    assert_eq!(raffle.update_platform_fee_account(alice(), charlie()), Ok(()));
    assert_eq!(raffle.ticket_order(0, account(9), 1_000_000_000).unwrap().fee_account, charlie());
}

#[test]
fn unknown_raffle_reads_are_empty() {
    let raffle = Raffle::new(alice(), bob());
    assert!(raffle.get_raffle_info(0).is_none());
    assert!(raffle.get_raffle_participants(0).is_empty());
    assert!(!raffle.has_user_participated(0, alice()));
    assert_eq!(raffle.prize_payout(0, alice()), Err(RaffleError::RaffleNotFound));
}

#[test]
fn account_equality_compares_all_bytes() {
    let a = account(1);
    let mut b = a;
    assert_eq!(a, b);
    b.0[31] = 0;
    assert_ne!(a, b);
}

#[test]
fn stored_parts_round_trip() {
    let mut raffle = ledger_with_raffle(4);
    raffle.buy_ticket(0, charlie(), 1_000_000_000, true).unwrap();
    let (authority, fee_account, raffles, participants) = raffle.into_parts();
    assert_eq!(authority, alice());
    assert_eq!(fee_account, bob());
    assert_eq!(raffles.len(), 1);
    assert_eq!(participants, vec![vec![charlie()]]);
    let back = Raffle::from_parts(authority, fee_account, raffles, participants).unwrap();
    assert_eq!(back.get_raffle_info(0).unwrap().tickets_sold, 1);
    assert!(back.has_user_participated(0, charlie()));
}

#[test]
fn inconsistent_parts_rejected() {
    let mut raffle = ledger_with_raffle(4);
    raffle.buy_ticket(0, charlie(), 1_000_000_000, true).unwrap();
    let (authority, fee_account, raffles, _) = raffle.into_parts();
    // Two participants recorded against one sold ticket.
    let r = Raffle::from_parts(authority, fee_account, raffles, vec![vec![charlie(), charlie()]]);
    assert!(r.is_none());
    assert!(Raffle::from_parts(alice(), bob(), Vec::new(), vec![Vec::new()]).is_none());
}
