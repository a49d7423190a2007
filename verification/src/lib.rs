//! A custodial game economy: a vault of fungible coin, non-fungible game
//! tickets whose level advances through randomized dice rounds, and a
//! capability-based authorization model that separates public, internal-only
//! and admin-only operations.
//!
//! The ledger that executes calls atomically, mints the underlying resources
//! and supplies random words is an external collaborator; this crate holds the
//! rules themselves: which operations are allowed, how a round is resolved,
//! and how the vault balance and ticket levels may change.

pub mod access;
pub mod assets;
pub mod dice;
pub mod game;
pub mod text;
