//! The scoreboard: the two players' goal counters and their display line.

use vstd::prelude::*;
use vstd::string::StringExecFns;

verus! {

/// The two players' scores, left player's first.  The counters are eight
/// bits wide and wrap silently past 255.
#[derive(Clone, Copy, Debug, PartialEq, Eq, Structural)]
pub struct Scoreboard(pub u8, pub u8);

/// A score counter after one more goal: up by one, wrapping past 255.
pub open spec fn score_inc(s: u8) -> u8 {
    (((s as int) + 1) % 256) as u8
}

/// The decimal digit character for `d` in `0..10`.
pub open spec fn digit_char(d: int) -> char {
    if d == 0 {
        '0'
    } else if d == 1 {
        '1'
    } else if d == 2 {
        '2'
    } else if d == 3 {
        '3'
    } else if d == 4 {
        '4'
    } else if d == 5 {
        '5'
    } else if d == 6 {
        '6'
    } else if d == 7 {
        '7'
    } else if d == 8 {
        '8'
    } else {
        '9'
    }
}

/// The decimal numeral of an eight-bit counter, without leading zeros.
pub open spec fn spec_decimal(n: int) -> Seq<char> {
    if n < 10 {
        seq![digit_char(n)]
    } else if n < 100 {
        seq![digit_char(n / 10), digit_char(n % 10)]
    } else {
        seq![digit_char(n / 100), digit_char((n / 10) % 10), digit_char(n % 10)]
    }
}

/// The scoreboard display line: both numerals joined by a single space.
pub open spec fn spec_score_line(s: Scoreboard) -> Seq<char> {
    spec_decimal(s.0 as int) + seq![' '] + spec_decimal(s.1 as int)
}

/// The one-character string for a decimal digit.
fn digit_str(d: u8) -> (r: &'static str)
    requires
        d < 10,
    ensures
        r@ == seq![digit_char(d as int)],
{
    proof {
        reveal_strlit("0");
        reveal_strlit("1");
        reveal_strlit("2");
        reveal_strlit("3");
        reveal_strlit("4");
        reveal_strlit("5");
        reveal_strlit("6");
        reveal_strlit("7");
        reveal_strlit("8");
        reveal_strlit("9");
    }
    let r: &'static str = match d {
        0 => "0",
        1 => "1",
        2 => "2",
        3 => "3",
        4 => "4",
        5 => "5",
        6 => "6",
        7 => "7",
        8 => "8",
        _ => "9",
    };
    proof {
        assert(r@ =~= seq![digit_char(d as int)]);
    }
    r
}

/// The decimal numeral of an eight-bit counter.
fn number_string(n: u8) -> (r: String)
    ensures
        r@ == spec_decimal(n as int),
{
    if n < 10 {
        let r = String::from_str(digit_str(n));
        proof {
            assert(r@ =~= spec_decimal(n as int));
        }
        r
    } else if n < 100 {
        let mut r = String::from_str(digit_str(n / 10));
        r.append(digit_str(n % 10));
        proof {
            assert(r@ =~= spec_decimal(n as int));
        }
        r
    } else {
        let mut r = String::from_str(digit_str(n / 100));
        r.append(digit_str((n / 10) % 10));
        r.append(digit_str(n % 10));
        proof {
            assert(r@ =~= spec_decimal(n as int));
        }
        r
    }
}

/// Render the score for display: the two counters joined by one space.
pub fn generate_score(score: &Scoreboard) -> (r: String)
    ensures
        r@ == spec_score_line(*score),
{
    proof {
        reveal_strlit(" ");
    }
    let mut r = number_string(score.0);
    r.append(" ");
    let right = number_string(score.1);
    r.append(right.as_str());
    proof {
        assert(r@ =~= spec_score_line(*score));
    }
    r
}

} // verus!
