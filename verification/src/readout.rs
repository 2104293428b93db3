//! What the session shows of itself in numbers: the clock in minutes and
//! seconds, and the fill of the two bars.

use vstd::prelude::*;
use vstd::string::StringExecFns;
use crate::fixed::trunc_div;

verus! {

/// The character of one decimal digit.
pub open spec fn digit_char(d: int) -> char {
    if d == 0 {
        '0'
    } else if d == 1 {
        '1'
    } else if d == 2 {
        '2'
    } else if d == 3 {
        '3'
    } else if d == 4 {
        '4'
    } else if d == 5 {
        '5'
    } else if d == 6 {
        '6'
    } else if d == 7 {
        '7'
    } else if d == 8 {
        '8'
    } else {
        '9'
    }
}

/// The decimal digits of `n`, the most significant first.
pub open spec fn digits(n: nat) -> Seq<char>
    decreases n,
{
    if n < 10 {
        seq![digit_char(n as int)]
    } else {
        digits(n / 10).push(digit_char((n % 10) as int))
    }
}

/// `n` in decimal digits, with a nought before a single digit.
pub open spec fn two_digits(n: nat) -> Seq<char> {
    if n < 10 {
        seq!['0'] + digits(n)
    } else {
        digits(n)
    }
}

/// The whole minutes in `elapsed_time` milliseconds.
pub open spec fn minutes_of(elapsed_time: u128) -> nat {
    (elapsed_time / 1000 / 60) as nat
}

/// The seconds that `elapsed_time` milliseconds leave beyond whole minutes.
pub open spec fn seconds_of(elapsed_time: u128) -> nat {
    (elapsed_time / 1000 % 60) as nat
}

fn digit_str(d: u8) -> (s: &'static str)
    requires
        d < 10,
    ensures
        s@ == seq![digit_char(d as int)],
{
    proof {
        reveal_strlit("0");
        reveal_strlit("1");
        reveal_strlit("2");
        reveal_strlit("3");
        reveal_strlit("4");
        reveal_strlit("5");
        reveal_strlit("6");
        reveal_strlit("7");
        reveal_strlit("8");
        reveal_strlit("9");
    }
    let s = match d {
        0 => "0",
        1 => "1",
        2 => "2",
        3 => "3",
        4 => "4",
        5 => "5",
        6 => "6",
        7 => "7",
        8 => "8",
        _ => "9",
    };
    assert(s@ =~= seq![digit_char(d as int)]);
    s
}

/// `n` written in decimal digits.
pub fn decimal(n: u128) -> (s: String)
    ensures
        s@ == digits(n as nat),
    decreases n,
{
    if n < 10 {
        String::from_str(digit_str(n as u8))
    } else {
        let mut s: String = decimal(n / 10);
        s.append(digit_str((n % 10) as u8));
        assert(s@ =~= digits(n as nat));
        s
    }
}

fn padded(n: u128) -> (s: String)
    ensures
        s@ == two_digits(n as nat),
{
    if n < 10 {
        proof {
            reveal_strlit("0");
        }
        let mut s: String = String::from_str("0");
        s.append(digit_str(n as u8));
        assert(s@ =~= two_digits(n as nat));
        s
    } else {
        decimal(n)
    }
}

/// The minutes of the session clock, in at least two digits.
pub fn get_minutes_from_millis(elapsed_time: u128) -> (s: String)
    ensures
        s@ == two_digits(minutes_of(elapsed_time)),
{
    padded(elapsed_time / 1000 / 60)
}

/// The seconds of the session clock, in two digits.
pub fn get_seconds_from_millis(elapsed_time: u128) -> (s: String)
    ensures
        s@ == two_digits(seconds_of(elapsed_time)),
        s@.len() == 2,
{
    let secs: u128 = elapsed_time / 1000 % 60;
    let s = padded(secs);
    proof {
        lemma_two_digits_len(secs as nat);
    }
    s
}

/// A number below a hundred is written in two digits.
pub proof fn lemma_two_digits_len(n: nat)
    requires
        n < 100,
    ensures
        two_digits(n).len() == 2,
{
    if n >= 10 {
        assert(digits(n / 10).len() == 1);
    }
}

/// The share of `whole` that `part` is, in thousandths of a percent; an
/// empty whole counts as full.
pub open spec fn percent_of(part: i64, whole: i64) -> int {
    if whole == 0 {
        100_000
    } else if whole > 0 {
        trunc_div(part * 100_000, whole as int)
    } else {
        -trunc_div(part * 100_000, -whole)
    }
}

/// How far a bar is filled: `part` as a percentage of `whole`.
pub fn percentage(part: i64, whole: i64) -> (p: i128)
    ensures
        p == percent_of(part, whole),
{
    if whole == 0 {
        100_000
    } else {
        let n: i128 = (part as i128) * 100_000;
        let w: i128 = if whole > 0 {
            whole as i128
        } else {
            -(whole as i128)
        };
        let q: i128 = if n >= 0 {
            n / w
        } else {
            -((-n) / w)
        };
        if whole > 0 {
            q
        } else {
            -q
        }
    }
}

} // verus!
