//! Operation classification: which capability tier each operation demands.
//!
//! The policy is an explicit deny list over an open default: the three
//! privileged operations are named one by one, and any operation without an
//! entry — including ones added later — is reachable by any caller. That
//! openness is deliberate, but it is a standing design risk: a new operation
//! is public until someone remembers to deny it. A closed-by-default policy
//! would trade that risk for the opposite one, privileged operations that
//! nobody can call until they are listed.

use vstd::prelude::*;

verus! {

/// Every operation of the call surface, named so the policy can classify it.
#[derive(Clone, Copy, Debug, PartialEq, Eq, Structural)]
pub enum Op {
    RollDice,
    RollDiceOld,
    RollDiceAlt,
    Deposit,
    WithdrawalAll,
    ReinitTicket,
    AdminTicket,
    BuyTicket,
    RedeemPrize,
    PlayRound,
    BurnTicket,
    ReadTicket,
}

/// The capability tier an operation demands of its caller.
#[derive(Clone, Copy, Debug, PartialEq, Eq, Structural)]
pub enum Tier {
    /// Callable by anyone holding the relevant token, proof or bucket.
    Public,
    /// Callable only from within the system itself.
    InternalOnly,
    /// Callable only with the admin badge in hand.
    AdminOnly,
}

/// Who is asking: an outside caller, an outside caller presenting the admin
/// badge, or the system itself calling one of its own operations.
#[derive(Clone, Copy, Debug, PartialEq, Eq, Structural)]
pub enum Caller {
    External,
    Admin,
    Internal,
}

/// Tier of each operation: the explicit deny-list entries, then the open
/// default.
pub open spec fn spec_classify(op: Op) -> Tier {
    match op {
        Op::AdminTicket => Tier::AdminOnly,
        Op::WithdrawalAll => Tier::AdminOnly,
        Op::RollDice => Tier::InternalOnly,
        _ => Tier::Public,
    }
}

/// Whether a caller of the given standing may invoke an operation of the
/// given tier. The system itself may invoke anything: validated public
/// operations perform their registry mutations internally.
pub open spec fn spec_allowed(op: Op, caller: Caller) -> bool {
    match spec_classify(op) {
        Tier::Public => true,
        Tier::InternalOnly => caller is Internal,
        Tier::AdminOnly => caller is Admin || caller is Internal,
    }
}

/// Classifies an operation: an explicit deny-list entry wins, anything
/// unlisted falls through to the open default.
pub fn classify(op: Op) -> (t: Tier)
    ensures
        t == spec_classify(op),
{
    if op == Op::AdminTicket {
        Tier::AdminOnly
    } else if op == Op::WithdrawalAll {
        Tier::AdminOnly
    } else if op == Op::RollDice {
        Tier::InternalOnly
    } else {
        Tier::Public
    }
}

/// Decides whether the caller may invoke the operation.
pub fn allowed(op: Op, caller: Caller) -> (r: bool)
    ensures
        r == spec_allowed(op, caller),
{
    match classify(op) {
        Tier::Public => true,
        Tier::InternalOnly => caller == Caller::Internal,
        Tier::AdminOnly => caller == Caller::Admin || caller == Caller::Internal,
    }
}

/// The open default is load-bearing: an operation without a deny-list entry
/// is reachable by an unprivileged caller.
pub proof fn lemma_unlisted_ops_are_public(op: Op)
    requires
        op != Op::AdminTicket,
        op != Op::WithdrawalAll,
        op != Op::RollDice,
    ensures
        spec_classify(op) == Tier::Public,
        spec_allowed(op, Caller::External),
{
}

} // verus!
