//! Value containers and credentials that callers present to the game.
//!
//! On the ledger these are unforgeable resources; here each is a plain record
//! carrying the resource kind it claims to belong to, and every operation
//! validates that kind against the kinds fixed at instantiation.

use vstd::prelude::*;

verus! {

/// One whole coin, expressed in the subunits that all amounts use.
pub const COIN: u128 = 1_000_000_000_000_000_000;

/// Price of a freshly minted ticket: one coin.
pub const TICKET_PRICE: u128 = COIN;

/// Price of reinitializing a spent ticket: a tenth below the full price,
/// rewarding replay over a new purchase.
pub const REINIT_PRICE: u128 = 9 * (COIN / 10);

/// Payout for redeeming a ticket that reached the top level: five coins.
pub const PRIZE_AMOUNT: u128 = 5 * COIN;

/// Why an operation was refused. Every failure aborts the whole operation
/// with no state change.
#[derive(Clone, Copy, Debug, PartialEq, Eq, Structural)]
pub enum GameError {
    /// A payment or token of the wrong resource kind was presented.
    InvalidAsset,
    /// A payment below the required minimum, or a vault balance below the
    /// requested payout.
    InsufficientFunds,
    /// A proof or token bucket covering a number of tickets other than one.
    InvalidProofCardinality,
    /// A proof that fails validation against the expected resource kind.
    InvalidProof,
    /// The ticket id is unknown to the registry.
    NotFound,
    /// A round was requested at a boundary level (0 or 25).
    NotPlayable,
    /// Reinitialization was requested while the ticket is still playable.
    StillPlayable,
    /// Redemption was requested below the top level.
    NotRedeemable,
    /// The caller lacks the capability tier the operation demands.
    Unauthorized,
}

/// A consumable container of fungible coin.
#[derive(Debug)]
pub struct CoinBucket {
    /// Resource kind of the coin held.
    pub kind: u64,
    /// Amount held, in subunits of [`COIN`].
    pub amount: u128,
}

/// The bearer ticket token itself; presenting it (not a proof of it)
/// surrenders custody, as a burn requires.
#[derive(Debug)]
pub struct TicketToken {
    /// Resource kind of the ticket.
    pub kind: u64,
    /// Registry id assigned at mint time.
    pub id: u64,
}

/// A consumable container of ticket tokens, as presented to a burn.
#[derive(Debug)]
pub struct TicketBucket {
    /// Resource kind the bucket claims to hold.
    pub kind: u64,
    /// Ids of the tokens inside.
    pub ids: Vec<u64>,
}

/// A non-consuming assertion of ownership of one or more tickets; the tokens
/// themselves stay with the caller.
#[derive(Debug)]
pub struct TicketProof {
    /// Resource kind the proof claims to cover.
    pub kind: u64,
    /// Ids of the tickets the proof covers.
    pub ids: Vec<u64>,
}

/// The unforgeable admin credential handed to the deploying operator at
/// instantiation.
#[derive(Debug)]
pub struct AdminBadge {
    /// Resource kind of the badge.
    pub kind: u64,
}

} // verus!
