//! The round engine: deriving unbiased die values from wide random words,
//! and resolving a round into a level delta.
//!
//! The random source is an external collaborator that supplies uniformly
//! distributed `u128` words on demand; callers hand those words in, and
//! everything from the first bit to the final level is computed and proved
//! here.

use vstd::prelude::*;

use crate::text;

verus! {

/// Value of the rejection-sampling scan over one random word: the word is
/// read in 3-bit groups, one group per nibble from the low end; the first
/// group below 6 yields that group plus one, a group of 6 or 7 is discarded,
/// and a word whose remaining bits are zero yields nothing.
///
/// Keeping only 3 of every 4 bits steps the scan by a whole nibble, so the
/// 128 available bits divide evenly into groups.
pub open spec fn spec_scan_die(x: u128) -> Option<i8>
    decreases x,
    via spec_scan_die_decreases
{
    if x == 0 {
        None
    } else if (x & 7) < 6 {
        Some(((x & 7) + 1) as i8)
    } else {
        spec_scan_die(x >> 4)
    }
}

#[via_fn]
proof fn spec_scan_die_decreases(x: u128) {
    assert(x != 0 ==> (x >> 4) < x) by (bit_vector);
}

/// A scanned die, when one comes out, is between 1 and 6.
pub proof fn lemma_scan_die_range(x: u128)
    ensures
        spec_scan_die(x) matches Some(d) ==> 1 <= d <= 6,
    decreases x,
{
    assert(x & 7 <= 7) by (bit_vector);
    if x != 0 && !((x & 7) < 6) {
        assert(x != 0 ==> x >> 4 < x) by (bit_vector);
        lemma_scan_die_range(x >> 4);
    }
}

/// Value of the biased fallback: a plain modulo-6 reduction of the word.
/// The 2^128 word values do not divide evenly into 6 classes, so this is
/// not uniform; it must never feed a payout-bearing round.
pub open spec fn spec_modulo_die(x: u128) -> i8 {
    ((x % 6) + 1) as i8
}

/// First die the rejection scan produces from a sequence of random words,
/// with the index of the word that produced it: words whose scan comes up
/// empty are passed over.
pub open spec fn spec_first_die(draws: Seq<u128>) -> Option<(i8, int)>
    decreases draws.len(),
{
    if draws.len() == 0 {
        None
    } else {
        match spec_scan_die(draws[0]) {
            Some(d) => Some((d, 0)),
            None => match spec_first_die(draws.drop_first()) {
                Some((d, i)) => Some((d, i + 1)),
                None => None,
            },
        }
    }
}

/// The two dice of a round — house first, then player — drawn from one
/// sequence of random words by two successive rejection scans.
pub open spec fn spec_two_dice(draws: Seq<u128>) -> Option<(i8, i8)> {
    match spec_first_die(draws) {
        Some((house, i)) => match spec_first_die(draws.skip(i + 1)) {
            Some((player, _)) => Some((house, player)),
            None => None,
        },
        None => None,
    }
}

/// Level delta of a round: player minus house, except that a tie is broken
/// to the tied value minus four — a deliberate, asymmetric rule that the
/// surrounding system depends on, not a reroll and not a no-op.
pub open spec fn spec_delta(house: int, player: int) -> int {
    if player == house {
        player - 4
    } else {
        player - house
    }
}

/// New level of a round: the delta applied to the old level, clamped into
/// the 0..=25 band.
pub open spec fn spec_new_level(level: int, delta: int) -> int {
    if level + delta < 0 {
        0
    } else if level + delta > 25 {
        25
    } else {
        level + delta
    }
}

/// A tie on value `k` always resolves to a delta of `k - 4`.
pub proof fn lemma_tie_break(k: int)
    ensures
        spec_delta(k, k) == k - 4,
{
}

/// Runs the rejection scan over one random word.
pub fn scan_die(draw: u128) -> (r: Option<i8>)
    ensures
        r == spec_scan_die(draw),
        r matches Some(d) ==> 1 <= d <= 6,
{
    proof {
        lemma_scan_die_range(draw);
    }
    let mut x: u128 = draw;
    loop
        invariant
            spec_scan_die(draw) == spec_scan_die(x),
        decreases x,
    {
        if x == 0 {
            return None;
        }
        let g: u128 = x & 7;
        assert(x & 7 <= 7) by (bit_vector);
        if g < 6 {
            return Some((g + 1) as i8);
        }
        proof {
            assert(x != 0 ==> x >> 4 < x) by (bit_vector);
        }
        x = x >> 4;
    }
}

/// Runs the biased modulo fallback over one random word.
pub fn modulo_die(draw: u128) -> (r: i8)
    ensures
        r == spec_modulo_die(draw),
        1 <= r <= 6,
{
    ((draw % 6) + 1) as i8
}

/// Finds the first word at or after `start` whose rejection scan yields a
/// die, returning the die and the index just past that word.
pub fn first_die_from(draws: &Vec<u128>, start: usize) -> (r: Option<(i8, usize)>)
    requires
        start <= draws.len(),
    ensures
        match r {
            Some((d, next)) => {
                &&& spec_first_die(draws@.skip(start as int)) matches Some((sd, si))
                    && sd == d && si == next - 1 - start
                &&& start < next <= draws.len()
                &&& 1 <= d <= 6
            },
            None => spec_first_die(draws@.skip(start as int)) is None,
        },
{
    let mut i: usize = start;
    while i < draws.len()
        invariant
            start <= i <= draws.len(),
            spec_first_die(draws@.skip(start as int)) == match spec_first_die(
                draws@.skip(i as int),
            ) {
                Some((d, j)) => Some((d, j + i - start)),
                None => None::<(i8, int)>,
            },
        decreases draws.len() - i,
    {
        assert(draws@.skip(i as int)[0] == draws@[i as int]);
        match scan_die(draws[i]) {
            Some(d) => {
                return Some((d, i + 1));
            },
            None => {
                assert(draws@.skip(i as int).drop_first() =~= draws@.skip(i as int + 1));
                i = i + 1;
            },
        }
    }
    assert(draws@.skip(i as int).len() == 0);
    None
}

/// Draws the two dice of a round — house, then player — from a sequence of
/// random words.
pub fn two_dice_from(draws: &Vec<u128>) -> (r: Option<(i8, i8)>)
    ensures
        r == spec_two_dice(draws@),
        r matches Some((h, p)) ==> 1 <= h <= 6 && 1 <= p <= 6,
{
    assert(draws@.skip(0) =~= draws@);
    match first_die_from(draws, 0) {
        Some((house, next)) => {
            match first_die_from(draws, next) {
                Some((player, _)) => Some((house, player)),
                None => None,
            }
        },
        None => None,
    }
}

/// Strategy for turning random words into a die value. Only the rejection
/// strategy is unbiased; the modulo strategy exists for comparison and must
/// stay out of every value-affecting path.
#[derive(Clone, Copy, Debug, PartialEq, Eq, Structural)]
pub enum DieStrategy {
    Rejection,
    Modulo,
}

/// Die a strategy produces from a sequence of random words, if any.
pub open spec fn spec_produce_die(strategy: DieStrategy, draws: Seq<u128>) -> Option<i8> {
    match strategy {
        DieStrategy::Rejection => match spec_first_die(draws) {
            Some((d, _)) => Some(d),
            None => None,
        },
        DieStrategy::Modulo => if draws.len() > 0 {
            Some(spec_modulo_die(draws[0]))
        } else {
            None
        },
    }
}

/// Produces one die value from the given random words under the chosen
/// strategy: `None` means the words were exhausted and the caller must draw
/// fresh ones.
pub fn produce_die(strategy: DieStrategy, draws: &Vec<u128>) -> (r: Option<i8>)
    ensures
        r == spec_produce_die(strategy, draws@),
        r matches Some(d) ==> 1 <= d <= 6,
{
    match strategy {
        DieStrategy::Rejection => {
            assert(draws@.skip(0) =~= draws@);
            match first_die_from(draws, 0) {
                Some((d, _)) => Some(d),
                None => None,
            }
        },
        DieStrategy::Modulo => {
            if draws.len() > 0 {
                Some(modulo_die(draws[0]))
            } else {
                None
            }
        },
    }
}

/// Resolves one round: applies the delta rule (tie-break included) to the
/// current level, clamps into the 0..=25 band, and renders the throw
/// description.
pub fn resolve_round(level: i8, house: i8, player: i8) -> (r: (i8, String))
    requires
        0 <= level <= 25,
        1 <= house <= 6,
        1 <= player <= 6,
    ensures
        r.0 == spec_new_level(level as int, spec_delta(house as int, player as int)),
        0 <= r.0 <= 25,
        r.1@ == text::spec_round_desc(
            house as int,
            player as int,
            r.0 as int,
            spec_delta(house as int, player as int),
        ),
{
    let mut delta: i8 = player - house;
    if delta == 0 {
        delta = player - 4;
    }
    let raw: i8 = level + delta;
    let new_level: i8 = if raw < 0 {
        0
    } else if raw > 25 {
        25
    } else {
        raw
    };
    let desc = text::round_desc(house, player, new_level, delta);
    (new_level, desc)
}

} // verus!
