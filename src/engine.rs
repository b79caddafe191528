use vstd::prelude::*;
use crate::account::AccountId;
use crate::types::{RaffleInfo, RaffleCreated, TicketPurchased, RaffleClosed, RaffleError};
use crate::payment::{PaymentSplit, TicketOrder, split_payment, split_spec, seed_from_hash, le_u32};

verus! {

/// The lowest ticket price a raffle may ask, in the smallest currency unit.
pub const MIN_TICKET_PRICE: u128 = 1_000_000_000;

/// The most tickets a raffle may offer.
pub const MAX_TICKETS: u32 = 10000;

/// The creation parameters that a raffle must meet.
pub open spec fn valid_params(max_tickets: u32, ticket_price: u128, fee_percent: u8, stake_percent: u8) -> bool {
    &&& 1 <= max_tickets <= MAX_TICKETS
    &&& ticket_price >= MIN_TICKET_PRICE
    &&& fee_percent <= 20
    &&& stake_percent <= 50
    &&& fee_percent + stake_percent <= 70
}

/// What holds of one raffle and its participant list at all times.
pub open spec fn raffle_consistent(info: RaffleInfo, parts: Seq<AccountId>) -> bool {
    &&& valid_params(info.max_tickets, info.ticket_price, info.fee_percent, info.stake_percent)
    &&& info.tickets_sold <= info.max_tickets
    &&& parts.len() == info.tickets_sold
    &&& parts.no_duplicates()
    &&& (info.is_closed <==> info.winner is Some)
    &&& (info.winner is Some ==> parts.contains(info.winner->0))
}

/// The abstract state of the ledger: raffle `i` is `raffles[i]`, and its
/// participants, in purchase order, are `participants[i]`.
pub ghost struct RaffleState {
    pub platform_authority: AccountId,
    pub platform_fee_account: AccountId,
    pub raffles: Seq<RaffleInfo>,
    pub participants: Seq<Seq<AccountId>>,
}

impl RaffleState {
    pub open spec fn has(self, id: u32) -> bool {
        (id as int) < self.raffles.len()
    }

    pub open spec fn info(self, id: u32) -> RaffleInfo {
        self.raffles[id as int]
    }

    /// The participants of a raffle; none for an unknown one.
    pub open spec fn parts(self, id: u32) -> Seq<AccountId> {
        if self.has(id) {
            self.participants[id as int]
        } else {
            Seq::empty()
        }
    }

    pub open spec fn raffle_ok(self, i: int) -> bool {
        raffle_consistent(self.raffles[i], self.participants[i])
    }

    pub open spec fn well_formed(self) -> bool {
        &&& self.raffles.len() == self.participants.len()
        &&& self.raffles.len() <= u32::MAX
        &&& forall|i: int| 0 <= i < self.raffles.len() ==> #[trigger] self.raffle_ok(i)
    }

    /// A fresh raffle record.
    pub open spec fn fresh(
        organizer: AccountId,
        title: String,
        max_tickets: u32,
        ticket_price: u128,
        fee_percent: u8,
        stake_percent: u8,
        created_at: u64,
    ) -> RaffleInfo {
        RaffleInfo {
            organizer,
            title,
            max_tickets,
            ticket_price,
            fee_percent,
            stake_percent,
            tickets_sold: 0,
            winner: None,
            is_closed: false,
            total_stake: 0,
            created_at,
        }
    }

    /// The state with one more raffle, with no participants.
    pub open spec fn after_create(self, info: RaffleInfo) -> RaffleState {
        RaffleState {
            raffles: self.raffles.push(info),
            participants: self.participants.push(Seq::empty()),
            ..self
        }
    }

    /// The first precondition of a purchase that fails, if any.
    pub open spec fn purchase_error(self, id: u32, buyer: AccountId, payment: u128) -> Option<RaffleError> {
        if !self.has(id) {
            Some(RaffleError::RaffleNotFound)
        } else if self.info(id).is_closed {
            Some(RaffleError::RaffleClosed)
        } else if self.info(id).tickets_sold >= self.info(id).max_tickets {
            Some(RaffleError::NoTicketsAvailable)
        } else if payment != self.info(id).ticket_price {
            Some(RaffleError::InsufficientFunds)
        } else if self.parts(id).contains(buyer) {
            Some(RaffleError::AlreadyParticipated)
        } else {
            None
        }
    }

    /// What a purchase of a ticket of raffle `id` pays out.
    pub open spec fn order_for(self, id: u32, payment: u128) -> TicketOrder {
        TicketOrder {
            fee_account: self.platform_fee_account,
            organizer: self.info(id).organizer,
            split: split_spec(payment, self.info(id).fee_percent, self.info(id).stake_percent),
        }
    }

    /// The state once `buyer` holds a ticket of raffle `id`, paid with `payment`.
    pub open spec fn after_purchase(self, id: u32, buyer: AccountId, payment: u128) -> RaffleState {
        let info = self.info(id);
        let stake = self.order_for(id, payment).split.stake_amount;
        RaffleState {
            raffles: self.raffles.update(
                id as int,
                RaffleInfo {
                    tickets_sold: (info.tickets_sold + 1) as u32,
                    total_stake: (info.total_stake + stake) as u128,
                    ..info
                },
            ),
            participants: self.participants.update(id as int, self.parts(id).push(buyer)),
            ..self
        }
    }

    /// The first precondition of closing that fails, if any.
    pub open spec fn close_error(self, id: u32, caller: AccountId) -> Option<RaffleError> {
        if !self.has(id) {
            Some(RaffleError::RaffleNotFound)
        } else if self.info(id).organizer != caller {
            Some(RaffleError::OnlyOrganizer)
        } else if self.info(id).is_closed {
            Some(RaffleError::RaffleClosed)
        } else if self.info(id).tickets_sold == 0 {
            Some(RaffleError::InvalidParameters)
        } else {
            None
        }
    }

    /// The participant drawn by a block hash: the seed of its first four
    /// bytes, modulo the number of participants.
    pub open spec fn drawn(self, id: u32, hash: Seq<u8>) -> AccountId {
        let seed = le_u32(hash[0], hash[1], hash[2], hash[3]);
        self.parts(id)[seed % self.parts(id).len() as int]
    }

    /// The state once raffle `id` is closed with `winner`.
    pub open spec fn after_close(self, id: u32, winner: AccountId) -> RaffleState {
        RaffleState {
            raffles: self.raffles.update(
                id as int,
                RaffleInfo { winner: Some(winner), is_closed: true, ..self.info(id) },
            ),
            ..self
        }
    }

    /// The first precondition of claiming that fails, if any.
    pub open spec fn claim_error(self, id: u32, caller: AccountId) -> Option<RaffleError> {
        if !self.has(id) {
            Some(RaffleError::RaffleNotFound)
        } else if !self.info(id).is_closed {
            Some(RaffleError::InvalidParameters)
        } else if self.info(id).winner != Some(caller) {
            Some(RaffleError::OnlyWinner)
        } else if self.info(id).total_stake == 0 {
            Some(RaffleError::NoPrizeToClaim)
        } else {
            None
        }
    }

    /// The state once the prize of raffle `id` is paid out.
    pub open spec fn after_claim(self, id: u32) -> RaffleState {
        RaffleState {
            raffles: self.raffles.update(id as int, RaffleInfo { total_stake: 0, ..self.info(id) }),
            ..self
        }
    }
}

/// The raffle ledger: its platform accounts, and each raffle with its
/// participants, indexed by raffle id.
pub struct Raffle {
    platform_authority: AccountId,
    platform_fee_account: AccountId,
    raffles: Vec<RaffleInfo>,
    participants: Vec<Vec<AccountId>>,
}

impl View for Raffle {
    type V = RaffleState;

    closed spec fn view(&self) -> RaffleState {
        RaffleState {
            platform_authority: self.platform_authority,
            platform_fee_account: self.platform_fee_account,
            raffles: self.raffles@,
            participants: self.participants@.map_values(|p: Vec<AccountId>| p@),
        }
    }
}

/// Whether `v` holds `a`.
fn contains_account(v: &Vec<AccountId>, a: AccountId) -> (r: bool)
    ensures
        r == v@.contains(a),
{
    let mut i: usize = 0;
    while i < v.len()
        invariant
            0 <= i <= v.len(),
            forall|j: int| 0 <= j < i ==> v@[j] != a,
        decreases v.len() - i,
    {
        if v[i].eq(&a) {
            return true;
        }
        i = i + 1;
    }
    false
}

/// Whether no identity occurs twice in `v`.
fn no_repeats(v: &Vec<AccountId>) -> (r: bool)
    ensures
        r == v@.no_duplicates(),
{
    let mut i: usize = 0;
    while i < v.len()
        invariant
            0 <= i <= v.len(),
            forall|a: int, b: int| 0 <= a < b < i ==> v@[a] != v@[b],
        decreases v.len() - i,
    {
        let mut j: usize = 0;
        while j < i
            invariant
                0 <= j <= i < v.len(),
                forall|a: int, b: int| 0 <= a < b < i ==> v@[a] != v@[b],
                forall|a: int| 0 <= a < j ==> v@[a] != v@[i as int],
            decreases i - j,
        {
            if v[j].eq(&v[i]) {
                return false;
            }
            j = j + 1;
        }
        i = i + 1;
    }
    proof {
        assert forall|a: int, b: int|
            0 <= a < v@.len() && 0 <= b < v@.len() && a != b implies v@[a] != v@[b] by {
            if a > b {
                assert(v@[b] != v@[a]);
            }
        }
    }
    true
}

/// Whether a stored raffle record and participant list are consistent.
fn is_consistent(info: &RaffleInfo, parts: &Vec<AccountId>) -> (r: bool)
    ensures
        r == raffle_consistent(*info, parts@),
{
    let params = 1 <= info.max_tickets && info.max_tickets <= MAX_TICKETS && info.ticket_price
        >= MIN_TICKET_PRICE && info.fee_percent <= 20 && info.stake_percent <= 50
        && info.fee_percent as u16 + info.stake_percent as u16 <= 70;
    if !params || info.tickets_sold > info.max_tickets || parts.len() != info.tickets_sold as usize {
        return false;
    }
    if info.is_closed != info.winner.is_some() {
        return false;
    }
    let winner_ok = match info.winner {
        Some(w) => contains_account(parts, w),
        None => true,
    };
    winner_ok && no_repeats(parts)
}

/// The abstract state made of the given parts.
pub open spec fn state_of(
    platform_authority: AccountId,
    platform_fee_account: AccountId,
    raffles: Seq<RaffleInfo>,
    participants: Seq<Vec<AccountId>>,
) -> RaffleState {
    RaffleState {
        platform_authority,
        platform_fee_account,
        raffles,
        participants: participants.map_values(|p: Vec<AccountId>| p@),
    }
}

impl Raffle {
    pub open spec fn wf(&self) -> bool {
        self@.well_formed()
    }

    /// A ledger with no raffles, run by `platform_authority`, with fees paid
    /// to `platform_fee_account`.
    pub fn new(platform_authority: AccountId, platform_fee_account: AccountId) -> (r: Raffle)
        ensures
            r.wf(),
            r@.platform_authority == platform_authority,
            r@.platform_fee_account == platform_fee_account,
            r@.raffles.len() == 0,
    {
        let r = Raffle {
            platform_authority,
            platform_fee_account,
            raffles: Vec::new(),
            participants: Vec::new(),
        };
        proof {
            assert(r@.participants =~= Seq::empty());
        }
        r
    }
    /// The payout of a ticket purchase by `buyer` paying `payment`, or the
    /// first precondition that fails. Nothing changes.
    pub fn ticket_order(&self, raffle_id: u32, buyer: AccountId, payment: u128) -> (r: Result<
        TicketOrder,
        RaffleError,
    >)
        requires
            self.wf(),
        ensures
            match self@.purchase_error(raffle_id, buyer, payment) {
                Some(e) => r == Err::<TicketOrder, RaffleError>(e),
                None => r == Ok::<TicketOrder, RaffleError>(self@.order_for(raffle_id, payment)),
            },
    {
        if raffle_id as usize >= self.raffles.len() {
            return Err(RaffleError::RaffleNotFound);
        }
        let i = raffle_id as usize;
        let info = &self.raffles[i];
        proof {
            assert(self@.raffle_ok(i as int));
        }
        if info.is_closed {
            return Err(RaffleError::RaffleClosed);
        }
        if info.tickets_sold >= info.max_tickets {
            return Err(RaffleError::NoTicketsAvailable);
        }
        if payment != info.ticket_price {
            return Err(RaffleError::InsufficientFunds);
        }
        if contains_account(&self.participants[i], buyer) {
            return Err(RaffleError::AlreadyParticipated);
        }
        let split = split_payment(payment, info.fee_percent, info.stake_percent);
        Ok(TicketOrder { fee_account: self.platform_fee_account, organizer: info.organizer, split })
    }

    /// Sells `buyer` a ticket of raffle `raffle_id` for `payment`. The
    /// preconditions are checked in order and the first that fails is
    /// returned. Otherwise the transfers of `ticket_order` are due, and
    /// `transfers_ok` tells whether all of them went through: if not, the
    /// purchase fails with `TransferFailed`. A failed purchase changes nothing.
    /// The escrow must have room in a `u128` for the ticket's stake.
    pub fn buy_ticket(&mut self, raffle_id: u32, buyer: AccountId, payment: u128, transfers_ok: bool) -> (r:
        Result<TicketPurchased, RaffleError>)
        requires
            old(self).wf(),
            old(self)@.purchase_error(raffle_id, buyer, payment) is None ==> old(self)@.info(
                raffle_id,
            ).total_stake + old(self)@.order_for(raffle_id, payment).split.stake_amount <= u128::MAX,
        ensures
            final(self).wf(),
            match old(self)@.purchase_error(raffle_id, buyer, payment) {
                Some(e) => r == Err::<TicketPurchased, RaffleError>(e) && final(self)@ == old(self)@,
                None => if transfers_ok {
                    &&& r == Ok::<TicketPurchased, RaffleError>(
                        TicketPurchased {
                            raffle_id,
                            buyer,
                            ticket_number: (old(self)@.info(raffle_id).tickets_sold + 1) as u32,
                            amount_paid: payment,
                        },
                    )
                    &&& final(self)@ == old(self)@.after_purchase(raffle_id, buyer, payment)
                } else {
                    r == Err::<TicketPurchased, RaffleError>(RaffleError::TransferFailed)
                        && final(self)@ == old(self)@
                },
            },
    {
        let order = match self.ticket_order(raffle_id, buyer, payment) {
            Ok(o) => o,
            Err(e) => {
                return Err(e);
            },
        };
        if !transfers_ok {
            return Err(RaffleError::TransferFailed);
        }
        let ghost pre = self@;
        let i = raffle_id as usize;
        proof {
            assert(pre.raffle_ok(i as int));
        }
        let mut info = self.raffles[i].duplicate();
        info.tickets_sold = info.tickets_sold + 1;
        info.total_stake = info.total_stake + order.split.stake_amount;
        let ticket_number = info.tickets_sold;
        self.raffles.set(i, info);
        let mut parts: Vec<AccountId> = Vec::new();
        self.participants.set_and_swap(i, &mut parts);
        parts.push(buyer);
        self.participants.set(i, parts);
        proof {
            let post = pre.after_purchase(raffle_id, buyer, payment);
            assert(self@.participants =~= post.participants);
            assert(self@.raffles =~= post.raffles);
            assert(self@ == post);
            assert forall|j: int| 0 <= j < post.raffles.len() implies #[trigger] post.raffle_ok(j) by {
                assert(pre.raffle_ok(j));
                if j == i as int {
                    assert(post.participants[j] == pre.participants[j].push(buyer));
                    assert(post.participants[j].no_duplicates());
                }
            }
        }
        Ok(TicketPurchased { raffle_id, buyer, ticket_number, amount_paid: payment })
    }

    /// Opens a raffle organized by `caller`, stamped `created_at`. Fails with
    /// `InvalidParameters`, changing nothing, unless `1 <= max_tickets <=
    /// 10000`, the price reaches the minimum, `fee_percent <= 20`,
    /// `stake_percent <= 50` and their sum is at most 70. The new raffle gets
    /// the next id, which is the number of raffles before it.
    pub fn create_raffle(
        &mut self,
        caller: AccountId,
        title: String,
        max_tickets: u32,
        ticket_price: u128,
        fee_percent: u8,
        stake_percent: u8,
        created_at: u64,
    ) -> (r: Result<RaffleCreated, RaffleError>)
        requires
            old(self).wf(),
            old(self)@.raffles.len() < u32::MAX,
        ensures
            final(self).wf(),
            valid_params(max_tickets, ticket_price, fee_percent, stake_percent) ==> {
                &&& r is Ok
                &&& r->Ok_0 == (RaffleCreated {
                    raffle_id: old(self)@.raffles.len() as u32,
                    organizer: caller,
                    title,
                    max_tickets,
                    ticket_price,
                })
                &&& final(self)@ == old(self)@.after_create(
                    RaffleState::fresh(
                        caller,
                        title,
                        max_tickets,
                        ticket_price,
                        fee_percent,
                        stake_percent,
                        created_at,
                    ),
                )
            },
            !valid_params(max_tickets, ticket_price, fee_percent, stake_percent) ==> {
                &&& r == Err::<RaffleCreated, RaffleError>(RaffleError::InvalidParameters)
                &&& final(self)@ == old(self)@
            },
    {
        if max_tickets == 0 || max_tickets > MAX_TICKETS {
            return Err(RaffleError::InvalidParameters);
        }
        if ticket_price < MIN_TICKET_PRICE {
            return Err(RaffleError::InvalidParameters);
        }
        if fee_percent > 20 {
            return Err(RaffleError::InvalidParameters);
        }
        if stake_percent > 50 {
            return Err(RaffleError::InvalidParameters);
        }
        if fee_percent + stake_percent > 70 {
            return Err(RaffleError::InvalidParameters);
        }
        let ghost pre = self@;
        let raffle_id = self.raffles.len() as u32;
        let info = RaffleInfo {
            organizer: caller,
            title: title.clone(),
            max_tickets,
            ticket_price,
            fee_percent,
            stake_percent,
            tickets_sold: 0,
            winner: None,
            is_closed: false,
            total_stake: 0,
            created_at,
        };
        self.raffles.push(info);
        self.participants.push(Vec::new());
        proof {
            let post = pre.after_create(info);
            assert(self@.participants =~= post.participants);
            assert(self@.raffles =~= post.raffles);
            assert(self@ == post);
            assert forall|j: int| 0 <= j < post.raffles.len() implies #[trigger] post.raffle_ok(j) by {
                if j < pre.raffles.len() {
                    assert(pre.raffle_ok(j));
                } else {
                    assert(post.participants[j] =~= Seq::<AccountId>::empty());
                }
            }
        }
        Ok(RaffleCreated { raffle_id, organizer: caller, title, max_tickets, ticket_price })
    }
    /// Closes raffle `raffle_id` on behalf of `caller` and draws its winner
    /// from `block_hash`: the participant at the hash's seed modulo the
    /// number of participants. The preconditions are checked in order and the
    /// first that fails is returned, changing nothing. The escrow is left as
    /// it is and reported as the prize.
    pub fn close_raffle(&mut self, raffle_id: u32, caller: AccountId, block_hash: [u8; 32]) -> (r:
        Result<RaffleClosed, RaffleError>)
        requires
            old(self).wf(),
        ensures
            final(self).wf(),
            match old(self)@.close_error(raffle_id, caller) {
                Some(e) => r == Err::<RaffleClosed, RaffleError>(e) && final(self)@ == old(self)@,
                None => {
                    let winner = old(self)@.drawn(raffle_id, block_hash@);
                    &&& r == Ok::<RaffleClosed, RaffleError>(
                        RaffleClosed {
                            raffle_id,
                            winner,
                            prize_amount: old(self)@.info(raffle_id).total_stake,
                        },
                    )
                    &&& final(self)@ == old(self)@.after_close(raffle_id, winner)
                },
            },
    {
        if raffle_id as usize >= self.raffles.len() {
            return Err(RaffleError::RaffleNotFound);
        }
        let ghost pre = self@;
        let i = raffle_id as usize;
        proof {
            assert(pre.raffle_ok(i as int));
        }
        if !self.raffles[i].organizer.eq(&caller) {
            return Err(RaffleError::OnlyOrganizer);
        }
        if self.raffles[i].is_closed {
            return Err(RaffleError::RaffleClosed);
        }
        if self.raffles[i].tickets_sold == 0 {
            return Err(RaffleError::InvalidParameters);
        }
        let seed = seed_from_hash(&block_hash);
        let count = self.participants[i].len();
        let winner_index = (seed as usize) % count;
        let winner = self.participants[i][winner_index];
        let mut info = self.raffles[i].duplicate();
        info.winner = Some(winner);
        info.is_closed = true;
        let prize_amount = info.total_stake;
        self.raffles.set(i, info);
        proof {
            let post = pre.after_close(raffle_id, winner);
            assert(self@.participants =~= post.participants);
            assert(self@.raffles =~= post.raffles);
            assert(self@ == post);
            assert forall|j: int| 0 <= j < post.raffles.len() implies #[trigger] post.raffle_ok(j) by {
                assert(pre.raffle_ok(j));
                if j == i as int {
                    assert(post.participants[j][winner_index as int] == winner);
                }
            }
        }
        Ok(RaffleClosed { raffle_id, winner, prize_amount })
    }

    /// The prize that `caller` may claim from raffle `raffle_id`, or the first
    /// precondition of claiming that fails. Nothing changes.
    pub fn prize_payout(&self, raffle_id: u32, caller: AccountId) -> (r: Result<u128, RaffleError>)
        requires
            self.wf(),
        ensures
            match self@.claim_error(raffle_id, caller) {
                Some(e) => r == Err::<u128, RaffleError>(e),
                None => r == Ok::<u128, RaffleError>(self@.info(raffle_id).total_stake),
            },
    {
        if raffle_id as usize >= self.raffles.len() {
            return Err(RaffleError::RaffleNotFound);
        }
        let info = &self.raffles[raffle_id as usize];
        if !info.is_closed {
            return Err(RaffleError::InvalidParameters);
        }
        let is_winner = match info.winner {
            Some(w) => w.eq(&caller),
            None => false,
        };
        if !is_winner {
            return Err(RaffleError::OnlyWinner);
        }
        if info.total_stake == 0 {
            return Err(RaffleError::NoPrizeToClaim);
        }
        Ok(info.total_stake)
    }

    /// Pays the escrowed prize of raffle `raffle_id` to `caller`, its winner.
    /// The preconditions are checked in order and the first that fails is
    /// returned. Otherwise the transfer of `prize_payout` is due, and
    /// `transfer_ok` tells whether it went through: if so the escrow drops to
    /// zero, if not the claim fails with `TransferFailed`. A failed claim
    /// changes nothing.
    pub fn claim_prize(&mut self, raffle_id: u32, caller: AccountId, transfer_ok: bool) -> (r: Result<
        (),
        RaffleError,
    >)
        requires
            old(self).wf(),
        ensures
            final(self).wf(),
            match old(self)@.claim_error(raffle_id, caller) {
                Some(e) => r == Err::<(), RaffleError>(e) && final(self)@ == old(self)@,
                None => if transfer_ok {
                    r == Ok::<(), RaffleError>(()) && final(self)@ == old(self)@.after_claim(
                        raffle_id,
                    )
                } else {
                    r == Err::<(), RaffleError>(RaffleError::TransferFailed) && final(self)@ == old(
                        self,
                    )@
                },
            },
    {
        match self.prize_payout(raffle_id, caller) {
            Ok(_) => {},
            Err(e) => {
                return Err(e);
            },
        }
        if !transfer_ok {
            return Err(RaffleError::TransferFailed);
        }
        let ghost pre = self@;
        let i = raffle_id as usize;
        let mut info = self.raffles[i].duplicate();
        info.total_stake = 0;
        self.raffles.set(i, info);
        proof {
            let post = pre.after_claim(raffle_id);
            assert(self@.participants =~= post.participants);
            assert(self@.raffles =~= post.raffles);
            assert(self@ == post);
            assert forall|j: int| 0 <= j < post.raffles.len() implies #[trigger] post.raffle_ok(j) by {
                assert(pre.raffle_ok(j));
            }
        }
        Ok(())
    }

    /// Moves the platform fee account to `new_fee_account`; only the platform
    /// authority may, and anyone else gets `OnlyPlatformAuthority`.
    pub fn update_platform_fee_account(&mut self, caller: AccountId, new_fee_account: AccountId) -> (r:
        Result<(), RaffleError>)
        requires
            old(self).wf(),
        ensures
            final(self).wf(),
            caller == old(self)@.platform_authority ==> r == Ok::<(), RaffleError>(())
                && final(self)@ == (RaffleState { platform_fee_account: new_fee_account, ..old(self)@ }),
            caller != old(self)@.platform_authority ==> r == Err::<(), RaffleError>(
                RaffleError::OnlyPlatformAuthority,
            ) && final(self)@ == old(self)@,
    {
        if !caller.eq(&self.platform_authority) {
            return Err(RaffleError::OnlyPlatformAuthority);
        }
        let ghost pre = self@;
        self.platform_fee_account = new_fee_account;
        proof {
            assert forall|j: int| 0 <= j < self@.raffles.len() implies #[trigger] self@.raffle_ok(j) by {
                assert(pre.raffle_ok(j));
            }
        }
        Ok(())
    }

    /// Rebuilds a ledger from its stored parts: the platform accounts, the
    /// raffle records by id, and each raffle's participants. Returns `None`
    /// exactly when the parts are not a consistent ledger.
    pub fn from_parts(
        platform_authority: AccountId,
        platform_fee_account: AccountId,
        raffles: Vec<RaffleInfo>,
        participants: Vec<Vec<AccountId>>,
    ) -> (r: Option<Raffle>)
        ensures
            r is Some <==> state_of(platform_authority, platform_fee_account, raffles@, participants@).well_formed(),
            r is Some ==> r->Some_0@ == state_of(platform_authority, platform_fee_account, raffles@, participants@),
    {
        let ghost st = state_of(platform_authority, platform_fee_account, raffles@, participants@);
        if raffles.len() != participants.len() || raffles.len() > u32::MAX as usize {
            return None;
        }
        let mut i: usize = 0;
        while i < raffles.len()
            invariant
                0 <= i <= raffles.len(),
                raffles.len() == participants.len(),
                st == state_of(platform_authority, platform_fee_account, raffles@, participants@),
                forall|j: int| 0 <= j < i ==> #[trigger] st.raffle_ok(j),
            decreases raffles.len() - i,
        {
            let ok = is_consistent(&raffles[i], &participants[i]);
            proof {
                assert(st.participants[i as int] == participants@[i as int]@);
                assert(ok == st.raffle_ok(i as int));
            }
            if !ok {
                return None;
            }
            i = i + 1;
        }
        let r = Raffle { platform_authority, platform_fee_account, raffles, participants };
        proof {
            assert(r@.participants =~= st.participants);
        }
        Some(r)
    }

    /// Takes the ledger apart into what `from_parts` rebuilds it from.
    pub fn into_parts(self) -> (r: (AccountId, AccountId, Vec<RaffleInfo>, Vec<Vec<AccountId>>))
        ensures
            state_of(r.0, r.1, r.2@, r.3@) == self@,
    {
        (self.platform_authority, self.platform_fee_account, self.raffles, self.participants)
    }

    /// The record of raffle `raffle_id`, if there is one.
    pub fn get_raffle_info(&self, raffle_id: u32) -> (r: Option<RaffleInfo>)
        ensures
            self@.has(raffle_id) ==> r == Some(self@.info(raffle_id)),
            !self@.has(raffle_id) ==> r is None,
    {
        if (raffle_id as usize) < self.raffles.len() {
            Some(self.raffles[raffle_id as usize].duplicate())
        } else {
            None
        }
    }

    /// The participants of raffle `raffle_id` in purchase order; none for an
    /// unknown raffle.
    pub fn get_raffle_participants(&self, raffle_id: u32) -> (r: Vec<AccountId>)
        requires
            self.wf(),
        ensures
            r@ == self@.parts(raffle_id),
    {
        let mut out: Vec<AccountId> = Vec::new();
        if (raffle_id as usize) < self.participants.len() {
            let parts = &self.participants[raffle_id as usize];
            let mut i: usize = 0;
            while i < parts.len()
                invariant
                    0 <= i <= parts.len(),
                    parts@ == self@.parts(raffle_id),
                    out@ == parts@.subrange(0, i as int),
                decreases parts.len() - i,
            {
                out.push(parts[i]);
                i = i + 1;
                proof {
                    assert(out@ =~= parts@.subrange(0, i as int));
                }
            }
            proof {
                assert(out@ =~= parts@);
            }
        } else {
            proof {
                assert(out@ =~= self@.parts(raffle_id));
            }
        }
        out
    }

    /// How many raffles have been created; the next raffle gets this id.
    pub fn get_raffle_count(&self) -> (r: u32)
        requires
            self.wf(),
        ensures
            r == self@.raffles.len(),
    {
        self.raffles.len() as u32
    }

    /// Whether `user` holds a ticket of raffle `raffle_id`.
    pub fn has_user_participated(&self, raffle_id: u32, user: AccountId) -> (r: bool)
        requires
            self.wf(),
        ensures
            r == self@.parts(raffle_id).contains(user),
    {
        if (raffle_id as usize) < self.participants.len() {
            contains_account(&self.participants[raffle_id as usize], user)
        } else {
            false
        }
    }

    /// The identity allowed to move the platform fee account.
    pub fn get_platform_authority(&self) -> (r: AccountId)
        ensures
            r == self@.platform_authority,
    {
        self.platform_authority
    }
}

} // verus!
