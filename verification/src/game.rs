//! The game component: ticket registry, coin vault, and the operations of
//! the call surface.
//!
//! Every operation is atomic: it either commits all of its effects or
//! returns an error and changes nothing. The contracts say, for each
//! operation, exactly which inputs succeed, which error each failing input
//! earns, and how the vault balance and the ticket records move.

use vstd::prelude::*;
use vstd::string::StringExecFns;

use crate::access;
use crate::assets::AdminBadge;
use crate::assets::CoinBucket;
use crate::assets::GameError;
use crate::assets::PRIZE_AMOUNT;
use crate::assets::REINIT_PRICE;
use crate::assets::TICKET_PRICE;
use crate::assets::TicketBucket;
use crate::assets::TicketProof;
use crate::assets::TicketToken;
use crate::dice;

verus! {

/// Mutable metadata of one non-fungible ticket. The bearer token itself is
/// an immutable instrument held outside the system; the registry keeps only
/// this record, keyed by the token's id.
#[derive(Debug)]
pub struct Ticket {
    /// Progress level, always within 0..=25.
    pub level: i8,
    /// Description of the most recent state transition.
    pub last_throw: String,
}

/// Whether a (possibly burned) registry slot respects the level band.
pub open spec fn ticket_level_ok(t: Option<Ticket>) -> bool {
    match t {
        Some(tk) => 0 <= tk.level <= 25,
        None => true,
    }
}

/// The instantiated game component: the vault balance, the ticket registry,
/// and the resource kinds everything presented to it is validated against.
pub struct Radicex {
    coin_kind: u64,
    ticket_kind: u64,
    admin_kind: u64,
    vault_balance: u128,
    tickets: Vec<Option<Ticket>>,
    nr_nfts_generated: u64,
}

impl Radicex {
    /// Resource kind of the fungible coin the vault accepts.
    pub closed spec fn spec_coin_kind(&self) -> u64 {
        self.coin_kind
    }

    /// Resource kind of the non-fungible ticket.
    pub closed spec fn spec_ticket_kind(&self) -> u64 {
        self.ticket_kind
    }

    /// Resource kind of the admin badge.
    pub closed spec fn spec_admin_kind(&self) -> u64 {
        self.admin_kind
    }

    /// Current vault balance, in coin subunits.
    pub closed spec fn spec_balance(&self) -> u128 {
        self.vault_balance
    }

    /// The registry: slot `i` holds the record of ticket id `i + 1`, or
    /// nothing once that ticket is burned.
    pub closed spec fn spec_tickets(&self) -> Seq<Option<Ticket>> {
        self.tickets@
    }

    /// Number of tickets ever minted; ids count up from 1 and are never
    /// reused.
    pub closed spec fn spec_generated(&self) -> u64 {
        self.nr_nfts_generated
    }

    /// Record of the ticket with the given id, if it was minted and not
    /// burned.
    pub open spec fn spec_ticket(&self, id: u64) -> Option<Ticket> {
        if 1 <= id && id <= self.spec_tickets().len() {
            self.spec_tickets()[id - 1]
        } else {
            None
        }
    }

    /// Internal consistency: the mint counter matches the registry length,
    /// and every live record's level lies within 0..=25.
    pub open spec fn inv(&self) -> bool {
        &&& self.spec_generated() == self.spec_tickets().len()
        &&& forall|i: int|
            0 <= i < self.spec_tickets().len() ==> ticket_level_ok(
                #[trigger] self.spec_tickets()[i],
            )
    }
}

/// The three resource kinds of a component never change after
/// instantiation.
pub open spec fn spec_kinds_unchanged(pre: Radicex, post: Radicex) -> bool {
    &&& post.spec_coin_kind() == pre.spec_coin_kind()
    &&& post.spec_ticket_kind() == pre.spec_ticket_kind()
    &&& post.spec_admin_kind() == pre.spec_admin_kind()
}

/// The registry is untouched: same records, same mint counter.
pub open spec fn spec_registry_unchanged(pre: Radicex, post: Radicex) -> bool {
    &&& post.spec_tickets() == pre.spec_tickets()
    &&& post.spec_generated() == pre.spec_generated()
}

/// Exactly the record of ticket `id` changed, to the given level and
/// description; every other slot and the mint counter are untouched.
pub open spec fn spec_ticket_updated(
    pre: Radicex,
    post: Radicex,
    id: u64,
    level: i8,
    desc: Seq<char>,
) -> bool {
    &&& post.spec_tickets().len() == pre.spec_tickets().len()
    &&& post.spec_generated() == pre.spec_generated()
    &&& forall|j: int|
        0 <= j < pre.spec_tickets().len() && j != id - 1 ==> #[trigger] post.spec_tickets()[j]
            == pre.spec_tickets()[j]
    &&& match post.spec_ticket(id) {
        Some(t) => t.level == level && t.last_throw@ == desc,
        None => false,
    }
}

/// One fresh ticket of level 10 was appended to the registry; every older
/// slot is untouched.
pub open spec fn spec_ticket_minted(pre: Radicex, post: Radicex, token: TicketToken) -> bool {
    &&& post.spec_tickets().len() == pre.spec_tickets().len() + 1
    &&& post.spec_generated() == pre.spec_generated() + 1
    &&& forall|j: int|
        0 <= j < pre.spec_tickets().len() ==> #[trigger] post.spec_tickets()[j]
            == pre.spec_tickets()[j]
    &&& token.kind == pre.spec_ticket_kind()
    &&& token.id == pre.spec_generated() + 1
    &&& match post.spec_ticket(token.id) {
        Some(t) => t.level == 10 && t.last_throw@ == "New Ticket, no play history"@,
        None => false,
    }
}

impl Radicex {
    /// Error a deposit earns, if any: the bucket must hold the vault's coin
    /// kind, and strictly more than the amount to be taken.
    pub open spec fn spec_deposit_err(&self, amount: u128, bucket: CoinBucket) -> Option<
        GameError,
    > {
        if bucket.kind != self.spec_coin_kind() {
            Some(GameError::InvalidAsset)
        } else if bucket.amount <= amount {
            Some(GameError::InsufficientFunds)
        } else {
            None
        }
    }

    /// Error a purchase earns, if any: coin kind, then at least the full
    /// ticket price.
    pub open spec fn spec_buy_err(&self, buyin: CoinBucket) -> Option<GameError> {
        if buyin.kind != self.spec_coin_kind() {
            Some(GameError::InvalidAsset)
        } else if buyin.amount < TICKET_PRICE {
            Some(GameError::InsufficientFunds)
        } else {
            None
        }
    }

    /// Error a reinitialization earns, if any, in the order the checks run:
    /// coin kind, discounted price, single-ticket proof, proof kind, known
    /// id, and finally a level of exactly 0.
    pub open spec fn spec_reinit_err(&self, ticket_proof: TicketProof, buyin: CoinBucket) -> Option<
        GameError,
    > {
        if buyin.kind != self.spec_coin_kind() {
            Some(GameError::InvalidAsset)
        } else if buyin.amount < REINIT_PRICE {
            Some(GameError::InsufficientFunds)
        } else if ticket_proof.ids.len() != 1 {
            Some(GameError::InvalidProofCardinality)
        } else if ticket_proof.kind != self.spec_ticket_kind() {
            Some(GameError::InvalidProof)
        } else if self.spec_ticket(ticket_proof.ids[0]) is None {
            Some(GameError::NotFound)
        } else if self.spec_ticket(ticket_proof.ids[0])->Some_0.level != 0 {
            Some(GameError::StillPlayable)
        } else {
            None
        }
    }

    /// Error a redemption earns, if any, in the order the checks run: a
    /// vault able to pay the prize, single-ticket proof, proof kind, known
    /// id, and finally a level of exactly 25.
    pub open spec fn spec_redeem_err(&self, ticket_proof: TicketProof) -> Option<GameError> {
        if self.spec_balance() < PRIZE_AMOUNT {
            Some(GameError::InsufficientFunds)
        } else if ticket_proof.ids.len() != 1 {
            Some(GameError::InvalidProofCardinality)
        } else if ticket_proof.kind != self.spec_ticket_kind() {
            Some(GameError::InvalidProof)
        } else if self.spec_ticket(ticket_proof.ids[0]) is None {
            Some(GameError::NotFound)
        } else if self.spec_ticket(ticket_proof.ids[0])->Some_0.level != 25 {
            Some(GameError::NotRedeemable)
        } else {
            None
        }
    }

    /// Error a round earns, if any, in the order the checks run:
    /// single-ticket proof, proof kind, known id, and a level strictly
    /// inside the playable band — both boundary levels are rejected alike.
    pub open spec fn spec_play_err(&self, ticket_proof: TicketProof) -> Option<GameError> {
        if ticket_proof.ids.len() != 1 {
            Some(GameError::InvalidProofCardinality)
        } else if ticket_proof.kind != self.spec_ticket_kind() {
            Some(GameError::InvalidProof)
        } else if self.spec_ticket(ticket_proof.ids[0]) is None {
            Some(GameError::NotFound)
        } else if self.spec_ticket(ticket_proof.ids[0])->Some_0.level == 25
            || self.spec_ticket(ticket_proof.ids[0])->Some_0.level == 0 {
            Some(GameError::NotPlayable)
        } else {
            None
        }
    }

    /// Error a burn earns, if any: the bucket must hold the ticket kind,
    /// exactly one token, and a token the registry still knows.
    pub open spec fn spec_burn_err(&self, bucket: TicketBucket) -> Option<GameError> {
        if bucket.kind != self.spec_ticket_kind() {
            Some(GameError::InvalidAsset)
        } else if bucket.ids.len() != 1 {
            Some(GameError::InvalidProofCardinality)
        } else if self.spec_ticket(bucket.ids[0]) is None {
            Some(GameError::NotFound)
        } else {
            None
        }
    }
}

impl Radicex {
    /// Creates a component around the three resource kinds the ledger
    /// assigned to it, with an empty vault and an empty registry, and hands
    /// the deploying operator the admin badge.
    pub fn instantiate(coin_kind: u64, ticket_kind: u64, admin_kind: u64) -> (r: (
        Radicex,
        AdminBadge,
    ))
        ensures
            r.0.inv(),
            r.0.spec_coin_kind() == coin_kind,
            r.0.spec_ticket_kind() == ticket_kind,
            r.0.spec_admin_kind() == admin_kind,
            r.0.spec_balance() == 0,
            r.0.spec_tickets().len() == 0,
            r.0.spec_generated() == 0,
            r.1.kind == admin_kind,
    {
        let component = Radicex {
            coin_kind,
            ticket_kind,
            admin_kind,
            vault_balance: 0,
            tickets: Vec::new(),
            nr_nfts_generated: 0,
        };
        (component, AdminBadge { kind: admin_kind })
    }

    /// Current vault balance, in coin subunits.
    pub fn balance(&self) -> (r: u128)
        ensures
            r == self.spec_balance(),
    {
        self.vault_balance
    }

    /// Number of tickets ever minted.
    pub fn nfts_generated(&self) -> (r: u64)
        ensures
            r == self.spec_generated(),
    {
        self.nr_nfts_generated
    }

    /// Record of the ticket with the given id.
    pub fn read(&self, id: u64) -> (r: Result<&Ticket, GameError>)
        ensures
            match r {
                Ok(t) => self.spec_ticket(id) == Some(*t),
                Err(e) => e == GameError::NotFound && self.spec_ticket(id) is None,
            },
    {
        if id == 0 || id > self.tickets.len() as u64 {
            return Err(GameError::NotFound);
        }
        let idx: usize = (id - 1) as usize;
        match &self.tickets[idx] {
            Some(t) => Ok(t),
            None => Err(GameError::NotFound),
        }
    }

    /// Rolls one die with the biased modulo fallback. The deny list keeps
    /// this primitive internal: an outside caller is turned away whatever
    /// badge it holds.
    pub fn roll_dice(&self, caller: access::Caller, draw: u128) -> (r: Result<i8, GameError>)
        ensures
            match r {
                Ok(d) => access::spec_allowed(access::Op::RollDice, caller) && d
                    == dice::spec_modulo_die(draw) && 1 <= d <= 6,
                Err(e) => !access::spec_allowed(access::Op::RollDice, caller) && e
                    == GameError::Unauthorized,
            },
    {
        if access::allowed(access::Op::RollDice, caller) {
            Ok(dice::modulo_die(draw))
        } else {
            Err(GameError::Unauthorized)
        }
    }

    /// Rolls one die with the biased modulo fallback, kept externally
    /// callable so its distribution can be compared against the unbiased
    /// path. Never wired into a payout-bearing round.
    pub fn roll_dice_old(&self, draw: u128) -> (r: i8)
        ensures
            r == dice::spec_modulo_die(draw),
            1 <= r <= 6,
    {
        dice::modulo_die(draw)
    }

    /// Rolls one die with the unbiased rejection scan over the given random
    /// words; `None` asks the caller to draw fresh words and try again.
    pub fn roll_dice_alt(&self, draws: &Vec<u128>) -> (r: Option<i8>)
        ensures
            r == dice::spec_produce_die(dice::DieStrategy::Rejection, draws@),
            r matches Some(d) ==> 1 <= d <= 6,
    {
        dice::produce_die(dice::DieStrategy::Rejection, draws)
    }

    /// Accepts `amount` of coin out of the bucket into the vault and
    /// returns the rest as change. The bucket must hold strictly more than
    /// the amount taken: an exact payment is refused, not accepted with
    /// zero change.
    pub fn deposit(&mut self, amount: u128, bucket: CoinBucket) -> (r: Result<
        CoinBucket,
        (GameError, CoinBucket),
    >)
        requires
            old(self).inv(),
            old(self).spec_deposit_err(amount, bucket) is None ==> old(self).spec_balance()
                + amount <= u128::MAX,
        ensures
            final(self).inv(),
            spec_kinds_unchanged(*old(self), *final(self)),
            spec_registry_unchanged(*old(self), *final(self)),
            match r {
                Ok(change) => {
                    &&& old(self).spec_deposit_err(amount, bucket) is None
                    &&& change.kind == bucket.kind
                    &&& change.amount == bucket.amount - amount
                    &&& final(self).spec_balance() == old(self).spec_balance() + amount
                },
                Err((e, refund)) => {
                    &&& Some(e) == old(self).spec_deposit_err(amount, bucket)
                    &&& refund == bucket
                    &&& *final(self) == *old(self)
                },
            },
    {
        if bucket.kind != self.coin_kind {
            return Err((GameError::InvalidAsset, bucket));
        }
        if bucket.amount <= amount {
            return Err((GameError::InsufficientFunds, bucket));
        }
        self.vault_balance = self.vault_balance + amount;
        Ok(CoinBucket { kind: bucket.kind, amount: bucket.amount - amount })
    }

    /// Drains the whole vault. Admin only: without the badge nothing
    /// changes and the caller is turned away.
    pub fn withdrawal_all(&mut self, badge: &AdminBadge) -> (r: Result<CoinBucket, GameError>)
        requires
            old(self).inv(),
        ensures
            final(self).inv(),
            spec_kinds_unchanged(*old(self), *final(self)),
            spec_registry_unchanged(*old(self), *final(self)),
            match r {
                Ok(payout) => {
                    &&& badge.kind == old(self).spec_admin_kind()
                    &&& payout.kind == old(self).spec_coin_kind()
                    &&& payout.amount == old(self).spec_balance()
                    &&& final(self).spec_balance() == 0
                },
                Err(e) => {
                    &&& badge.kind != old(self).spec_admin_kind()
                    &&& e == GameError::Unauthorized
                    &&& *final(self) == *old(self)
                },
            },
    {
        if badge.kind != self.admin_kind {
            return Err(GameError::Unauthorized);
        }
        let payout = CoinBucket { kind: self.coin_kind, amount: self.vault_balance };
        self.vault_balance = 0;
        Ok(payout)
    }

    /// The internal authorization context for record mutation: writes a
    /// ticket record under the system's own authority. Only operations that
    /// have already validated the caller's proof reach it, so a holder can
    /// never write arbitrary ticket data directly.
    fn commit_ticket_update(&mut self, id: u64, ticket: Ticket)
        requires
            old(self).inv(),
            1 <= id <= old(self).spec_tickets().len(),
            0 <= ticket.level <= 25,
        ensures
            final(self).inv(),
            spec_kinds_unchanged(*old(self), *final(self)),
            final(self).spec_balance() == old(self).spec_balance(),
            final(self).spec_generated() == old(self).spec_generated(),
            final(self).spec_tickets() == old(self).spec_tickets().update(
                id - 1,
                Some(ticket),
            ),
    {
        let n: usize = self.tickets.len();
        assert(id - 1 < n);
        let idx: usize = (id - 1) as usize;
        self.tickets[idx] = Some(ticket);
    }

    /// The internal authorization context for minting: creates one fresh
    /// level-10 ticket under the system's own authority. Validated public
    /// operations reach it; outside callers cannot.
    fn mint_ticket(&mut self) -> (token: TicketToken)
        requires
            old(self).inv(),
            old(self).spec_generated() < u64::MAX,
        ensures
            final(self).inv(),
            spec_kinds_unchanged(*old(self), *final(self)),
            final(self).spec_balance() == old(self).spec_balance(),
            spec_ticket_minted(*old(self), *final(self), token),
    {
        let id: u64 = self.nr_nfts_generated + 1;
        self.nr_nfts_generated = id;
        self.tickets.push(
            Some(Ticket { level: 10, last_throw: String::from_str("New Ticket, no play history") }),
        );
        TicketToken { kind: self.ticket_kind, id }
    }

    /// Mints one free ticket. Admin only: without the badge nothing changes
    /// and the caller is turned away.
    pub fn admin_ticket(&mut self, badge: &AdminBadge) -> (r: Result<TicketToken, GameError>)
        requires
            old(self).inv(),
            badge.kind == old(self).spec_admin_kind() ==> old(self).spec_generated() < u64::MAX,
        ensures
            final(self).inv(),
            spec_kinds_unchanged(*old(self), *final(self)),
            final(self).spec_balance() == old(self).spec_balance(),
            match r {
                Ok(token) => {
                    &&& badge.kind == old(self).spec_admin_kind()
                    &&& spec_ticket_minted(*old(self), *final(self), token)
                },
                Err(e) => {
                    &&& badge.kind != old(self).spec_admin_kind()
                    &&& e == GameError::Unauthorized
                    &&& *final(self) == *old(self)
                },
            },
    {
        if badge.kind != self.admin_kind {
            return Err(GameError::Unauthorized);
        }
        Ok(self.mint_ticket())
    }

    /// Sells one ticket for the full price: takes exactly one coin out of
    /// the bucket into the vault, mints a fresh level-10 ticket, and
    /// returns it with the change.
    pub fn buy_ticket(&mut self, buyin: CoinBucket) -> (r: Result<
        (TicketToken, CoinBucket),
        (GameError, CoinBucket),
    >)
        requires
            old(self).inv(),
            old(self).spec_buy_err(buyin) is None ==> old(self).spec_generated() < u64::MAX && old(
                self,
            ).spec_balance() + TICKET_PRICE <= u128::MAX,
        ensures
            final(self).inv(),
            spec_kinds_unchanged(*old(self), *final(self)),
            match r {
                Ok((token, change)) => {
                    &&& old(self).spec_buy_err(buyin) is None
                    &&& spec_ticket_minted(*old(self), *final(self), token)
                    &&& final(self).spec_balance() == old(self).spec_balance() + TICKET_PRICE
                    &&& change.kind == buyin.kind
                    &&& change.amount == buyin.amount - TICKET_PRICE
                },
                Err((e, refund)) => {
                    &&& Some(e) == old(self).spec_buy_err(buyin)
                    &&& refund == buyin
                    &&& *final(self) == *old(self)
                },
            },
    {
        if buyin.kind != self.coin_kind {
            return Err((GameError::InvalidAsset, buyin));
        }
        if buyin.amount < TICKET_PRICE {
            return Err((GameError::InsufficientFunds, buyin));
        }
        let token = self.mint_ticket();
        self.vault_balance = self.vault_balance + TICKET_PRICE;
        Ok((token, CoinBucket { kind: buyin.kind, amount: buyin.amount - TICKET_PRICE }))
    }

    /// Reinitializes a spent ticket at the discounted price: takes the
    /// discounted amount into the vault, sets the ticket back to level 10,
    /// and returns the change.
    pub fn reinit_ticket(&mut self, ticket_proof: &TicketProof, buyin: CoinBucket) -> (r: Result<
        CoinBucket,
        (GameError, CoinBucket),
    >)
        requires
            old(self).inv(),
            old(self).spec_reinit_err(*ticket_proof, buyin) is None ==> old(self).spec_balance()
                + REINIT_PRICE <= u128::MAX,
        ensures
            final(self).inv(),
            spec_kinds_unchanged(*old(self), *final(self)),
            match r {
                Ok(change) => {
                    &&& old(self).spec_reinit_err(*ticket_proof, buyin) is None
                    &&& spec_ticket_updated(
                        *old(self),
                        *final(self),
                        ticket_proof.ids[0],
                        10,
                        "Just reinitialized the Ticket"@,
                    )
                    &&& final(self).spec_balance() == old(self).spec_balance() + REINIT_PRICE
                    &&& change.kind == buyin.kind
                    &&& change.amount == buyin.amount - REINIT_PRICE
                },
                Err((e, refund)) => {
                    &&& Some(e) == old(self).spec_reinit_err(*ticket_proof, buyin)
                    &&& refund == buyin
                    &&& *final(self) == *old(self)
                },
            },
    {
        if buyin.kind != self.coin_kind {
            return Err((GameError::InvalidAsset, buyin));
        }
        if buyin.amount < REINIT_PRICE {
            return Err((GameError::InsufficientFunds, buyin));
        }
        if ticket_proof.ids.len() != 1 {
            return Err((GameError::InvalidProofCardinality, buyin));
        }
        if ticket_proof.kind != self.ticket_kind {
            return Err((GameError::InvalidProof, buyin));
        }
        let id: u64 = ticket_proof.ids[0];
        if id == 0 || id > self.tickets.len() as u64 {
            return Err((GameError::NotFound, buyin));
        }
        let idx: usize = (id - 1) as usize;
        let level: i8 = match &self.tickets[idx] {
            Some(t) => t.level,
            None => {
                return Err((GameError::NotFound, buyin));
            },
        };
        if level != 0 {
            return Err((GameError::StillPlayable, buyin));
        }
        self.vault_balance = self.vault_balance + REINIT_PRICE;
        self.commit_ticket_update(
            id,
            Ticket { level: 10, last_throw: String::from_str("Just reinitialized the Ticket") },
        );
        Ok(CoinBucket { kind: buyin.kind, amount: buyin.amount - REINIT_PRICE })
    }

    /// Pays out the fixed prize for a ticket that reached level 25 and
    /// resets it to level 0, ready for reinitialization.
    pub fn redeem_prize(&mut self, ticket_proof: &TicketProof) -> (r: Result<
        CoinBucket,
        GameError,
    >)
        requires
            old(self).inv(),
        ensures
            final(self).inv(),
            spec_kinds_unchanged(*old(self), *final(self)),
            match r {
                Ok(payout) => {
                    &&& old(self).spec_redeem_err(*ticket_proof) is None
                    &&& spec_ticket_updated(
                        *old(self),
                        *final(self),
                        ticket_proof.ids[0],
                        0,
                        "Just redeemed a level 25 Ticket"@,
                    )
                    &&& payout.kind == old(self).spec_coin_kind()
                    &&& payout.amount == PRIZE_AMOUNT
                    &&& final(self).spec_balance() == old(self).spec_balance() - PRIZE_AMOUNT
                },
                Err(e) => {
                    &&& Some(e) == old(self).spec_redeem_err(*ticket_proof)
                    &&& *final(self) == *old(self)
                },
            },
    {
        if self.vault_balance < PRIZE_AMOUNT {
            return Err(GameError::InsufficientFunds);
        }
        if ticket_proof.ids.len() != 1 {
            return Err(GameError::InvalidProofCardinality);
        }
        if ticket_proof.kind != self.ticket_kind {
            return Err(GameError::InvalidProof);
        }
        let id: u64 = ticket_proof.ids[0];
        if id == 0 || id > self.tickets.len() as u64 {
            return Err(GameError::NotFound);
        }
        let idx: usize = (id - 1) as usize;
        let level: i8 = match &self.tickets[idx] {
            Some(t) => t.level,
            None => {
                return Err(GameError::NotFound);
            },
        };
        if level != 25 {
            return Err(GameError::NotRedeemable);
        }
        self.commit_ticket_update(
            id,
            Ticket { level: 0, last_throw: String::from_str("Just redeemed a level 25 Ticket") },
        );
        self.vault_balance = self.vault_balance - PRIZE_AMOUNT;
        Ok(CoinBucket { kind: self.coin_kind, amount: PRIZE_AMOUNT })
    }

    /// Plays one round on a ticket strictly inside the playable band: two
    /// dice are drawn from the given random words by the unbiased rejection
    /// scan, and the resulting delta — tie-break included — moves the
    /// level, clamped into 0..=25. Both boundary levels are rejected with
    /// no state change.
    pub fn play_round(&mut self, ticket_proof: &TicketProof, draws: &Vec<u128>) -> (r: Result<
        (),
        GameError,
    >)
        requires
            old(self).inv(),
            old(self).spec_play_err(*ticket_proof) is None ==> dice::spec_two_dice(draws@)
                is Some,
        ensures
            final(self).inv(),
            spec_kinds_unchanged(*old(self), *final(self)),
            final(self).spec_balance() == old(self).spec_balance(),
            match r {
                Ok(()) => {
                    &&& old(self).spec_play_err(*ticket_proof) is None
                    &&& dice::spec_two_dice(draws@) matches Some((house, player)) && ({
                        let pre_level = old(self).spec_ticket(
                            ticket_proof.ids[0],
                        )->Some_0.level as int;
                        let delta = dice::spec_delta(house as int, player as int);
                        let new_level = dice::spec_new_level(pre_level, delta);
                        spec_ticket_updated(
                            *old(self),
                            *final(self),
                            ticket_proof.ids[0],
                            new_level as i8,
                            crate::text::spec_round_desc(
                                house as int,
                                player as int,
                                new_level,
                                delta,
                            ),
                        )
                    })
                },
                Err(e) => {
                    &&& Some(e) == old(self).spec_play_err(*ticket_proof)
                    &&& *final(self) == *old(self)
                },
            },
    {
        if ticket_proof.ids.len() != 1 {
            return Err(GameError::InvalidProofCardinality);
        }
        if ticket_proof.kind != self.ticket_kind {
            return Err(GameError::InvalidProof);
        }
        let id: u64 = ticket_proof.ids[0];
        if id == 0 || id > self.tickets.len() as u64 {
            return Err(GameError::NotFound);
        }
        let idx: usize = (id - 1) as usize;
        let level: i8 = match &self.tickets[idx] {
            Some(t) => t.level,
            None => {
                return Err(GameError::NotFound);
            },
        };
        if level == 25 || level == 0 {
            return Err(GameError::NotPlayable);
        }
        assert(ticket_level_ok(self.spec_tickets()[id - 1]));
        let (house, player) = match dice::two_dice_from(draws) {
            Some(dice_pair) => dice_pair,
            None => {
                proof {
                    assert(false);
                }
                return Err(GameError::NotPlayable);
            },
        };
        let (new_level, desc) = dice::resolve_round(level, house, player);
        self.commit_ticket_update(id, Ticket { level: new_level, last_throw: desc });
        Ok(())
    }

    /// Destroys the ticket whose bearer token is surrendered in the bucket;
    /// the record is gone for good and the id is never reused.
    pub fn burn_ticket(&mut self, bucket: TicketBucket) -> (r: Result<
        (),
        (GameError, TicketBucket),
    >)
        requires
            old(self).inv(),
        ensures
            final(self).inv(),
            spec_kinds_unchanged(*old(self), *final(self)),
            final(self).spec_balance() == old(self).spec_balance(),
            match r {
                Ok(()) => {
                    &&& old(self).spec_burn_err(bucket) is None
                    &&& final(self).spec_tickets().len() == old(self).spec_tickets().len()
                    &&& final(self).spec_generated() == old(self).spec_generated()
                    &&& forall|j: int|
                        0 <= j < old(self).spec_tickets().len() && j != bucket.ids[0] - 1
                            ==> #[trigger] final(self).spec_tickets()[j] == old(
                            self,
                        ).spec_tickets()[j]
                    &&& final(self).spec_ticket(bucket.ids[0]) is None
                },
                Err((e, refund)) => {
                    &&& Some(e) == old(self).spec_burn_err(bucket)
                    &&& refund == bucket
                    &&& *final(self) == *old(self)
                },
            },
    {
        if bucket.kind != self.ticket_kind {
            return Err((GameError::InvalidAsset, bucket));
        }
        if bucket.ids.len() != 1 {
            return Err((GameError::InvalidProofCardinality, bucket));
        }
        let id: u64 = bucket.ids[0];
        if id == 0 || id > self.tickets.len() as u64 {
            return Err((GameError::NotFound, bucket));
        }
        let idx: usize = (id - 1) as usize;
        let live: bool = match &self.tickets[idx] {
            Some(_) => true,
            None => false,
        };
        if !live {
            return Err((GameError::NotFound, bucket));
        }
        self.tickets[idx] = None;
        Ok(())
    }
}

/// Every ticket the registry knows sits inside the 0..=25 band — after any
/// sequence of operations, since each preserves the invariant.
pub proof fn lemma_levels_bounded(s: &Radicex, id: u64)
    requires
        s.inv(),
        s.spec_ticket(id) is Some,
    ensures
        0 <= s.spec_ticket(id)->Some_0.level <= 25,
{
    assert(ticket_level_ok(s.spec_tickets()[id - 1]));
}

/// With a valid single-ticket proof of a known ticket, a round is rejected —
/// with `NotPlayable`, and by the contract of `play_round` with no state
/// change — exactly when the level sits at a boundary, 0 or 25.
pub proof fn lemma_play_rejected_iff_boundary(s: &Radicex, ticket_proof: TicketProof)
    requires
        ticket_proof.ids.len() == 1,
        ticket_proof.kind == s.spec_ticket_kind(),
        s.spec_ticket(ticket_proof.ids[0]) is Some,
    ensures
        s.spec_play_err(ticket_proof) is Some <==> (s.spec_ticket(
            ticket_proof.ids[0],
        )->Some_0.level == 0 || s.spec_ticket(ticket_proof.ids[0])->Some_0.level == 25),
        s.spec_play_err(ticket_proof) is Some ==> s.spec_play_err(ticket_proof) == Some(
            GameError::NotPlayable,
        ),
{
}

/// With a valid single-ticket proof of a known ticket and a vault able to
/// pay the prize, redemption succeeds exactly when the level is 25; the
/// contract of `redeem_prize` then sets the level to 0 and debits the vault
/// by exactly the prize amount.
pub proof fn lemma_redeem_succeeds_iff_top(s: &Radicex, ticket_proof: TicketProof)
    requires
        s.spec_balance() >= PRIZE_AMOUNT,
        ticket_proof.ids.len() == 1,
        ticket_proof.kind == s.spec_ticket_kind(),
        s.spec_ticket(ticket_proof.ids[0]) is Some,
    ensures
        s.spec_redeem_err(ticket_proof) is None <==> s.spec_ticket(
            ticket_proof.ids[0],
        )->Some_0.level == 25,
{
}

/// With a valid single-ticket proof of a known ticket and a sufficient
/// payment of the right kind, reinitialization succeeds exactly when the
/// level is 0; the contract of `reinit_ticket` then sets the level to 10,
/// credits the vault by exactly the discounted price, and returns the rest
/// of the payment unchanged.
pub proof fn lemma_reinit_succeeds_iff_spent(
    s: &Radicex,
    ticket_proof: TicketProof,
    buyin: CoinBucket,
)
    requires
        buyin.kind == s.spec_coin_kind(),
        buyin.amount >= REINIT_PRICE,
        ticket_proof.ids.len() == 1,
        ticket_proof.kind == s.spec_ticket_kind(),
        s.spec_ticket(ticket_proof.ids[0]) is Some,
    ensures
        s.spec_reinit_err(ticket_proof, buyin) is None <==> s.spec_ticket(
            ticket_proof.ids[0],
        )->Some_0.level == 0,
{
}

} // verus!

