//! Rendering of the human-readable throw descriptions stored on a ticket.
//!
//! Each description is pinned down to the exact character sequence in the
//! contracts, so a ticket's `last_throw` is never free-floating text.

use vstd::prelude::*;
use vstd::string::StringExecFns;

verus! {

/// The decimal digit character for a value between 0 and 9.
pub open spec fn spec_digit(d: int) -> char {
    if d == 0 {
        '0'
    } else if d == 1 {
        '1'
    } else if d == 2 {
        '2'
    } else if d == 3 {
        '3'
    } else if d == 4 {
        '4'
    } else if d == 5 {
        '5'
    } else if d == 6 {
        '6'
    } else if d == 7 {
        '7'
    } else if d == 8 {
        '8'
    } else {
        '9'
    }
}

/// Decimal rendering of a value between 0 and 99, without leading zeros.
pub open spec fn spec_decimal(n: int) -> Seq<char> {
    if n < 10 {
        seq![spec_digit(n)]
    } else {
        seq![spec_digit(n / 10), spec_digit(n % 10)]
    }
}

/// Rendering of a signed value with an explicit sign, as a round's delta is
/// shown: `+2`, `-1`, `+0`.
pub open spec fn spec_signed(d: int) -> Seq<char> {
    if d >= 0 {
        seq!['+'] + spec_decimal(d)
    } else {
        seq!['-'] + spec_decimal(-d)
    }
}

/// The throw description of a resolved round, embedding the house die, the
/// player die, the resulting level and the signed delta.
pub open spec fn spec_round_desc(house: int, player: int, new_level: int, delta: int) -> Seq<
    char,
> {
    "House "@ + spec_decimal(house) + ", Player "@ + spec_decimal(player) + ", New Lvl "@
        + spec_decimal(new_level) + "("@ + spec_signed(delta) + ")"@
}

/// The one-character string for a decimal digit.
fn digit_str(d: u8) -> (r: &'static str)
    requires
        d <= 9,
    ensures
        r@ == seq![spec_digit(d as int)],
{
    proof {
        reveal_strlit("0");
        reveal_strlit("1");
        reveal_strlit("2");
        reveal_strlit("3");
        reveal_strlit("4");
        reveal_strlit("5");
        reveal_strlit("6");
        reveal_strlit("7");
        reveal_strlit("8");
        reveal_strlit("9");
    }
    let r: &'static str = if d == 0 {
        "0"
    } else if d == 1 {
        "1"
    } else if d == 2 {
        "2"
    } else if d == 3 {
        "3"
    } else if d == 4 {
        "4"
    } else if d == 5 {
        "5"
    } else if d == 6 {
        "6"
    } else if d == 7 {
        "7"
    } else if d == 8 {
        "8"
    } else {
        "9"
    };
    proof {
        assert(r@ =~= seq![spec_digit(d as int)]);
    }
    r
}

/// Appends the decimal rendering of a value between 0 and 99.
fn push_decimal(s: &mut String, n: u8)
    requires
        n <= 99,
    ensures
        final(s)@ == old(s)@ + spec_decimal(n as int),
{
    if n < 10 {
        s.append(digit_str(n));
    } else {
        s.append(digit_str(n / 10));
        s.append(digit_str(n % 10));
        proof {
            assert(s@ =~= old(s)@ + spec_decimal(n as int));
        }
    }
}

/// Appends the sign-explicit rendering of a delta between -9 and 9.
fn push_signed(s: &mut String, d: i8)
    requires
        -9 <= d <= 9,
    ensures
        final(s)@ == old(s)@ + spec_signed(d as int),
{
    if d >= 0 {
        proof {
            reveal_strlit("+");
        }
        s.append("+");
        push_decimal(s, d as u8);
    } else {
        proof {
            reveal_strlit("-");
        }
        s.append("-");
        push_decimal(s, (0 - d) as u8);
    }
    proof {
        assert(s@ =~= old(s)@ + spec_signed(d as int));
    }
}

/// Renders the throw description of a resolved round.
pub fn round_desc(house: i8, player: i8, new_level: i8, delta: i8) -> (r: String)
    requires
        0 <= house <= 9,
        0 <= player <= 9,
        0 <= new_level <= 99,
        -9 <= delta <= 9,
    ensures
        r@ == spec_round_desc(house as int, player as int, new_level as int, delta as int),
{
    let mut s = String::from_str("House ");
    push_decimal(&mut s, house as u8);
    s.append(", Player ");
    push_decimal(&mut s, player as u8);
    s.append(", New Lvl ");
    push_decimal(&mut s, new_level as u8);
    s.append("(");
    push_signed(&mut s, delta);
    s.append(")");
    proof {
        assert(s@ =~= spec_round_desc(
            house as int,
            player as int,
            new_level as int,
            delta as int,
        ));
    }
    s
}

} // verus!
