//! Decimal rendering of the integer quantities the library works with:
//! plain decimal numbers, fixed-point currency/energy values with two
//! decimal places, and the `XhYmZs` elapsed-time format.

use vstd::prelude::*;
use vstd::string::StringExecFns;

verus! {

/// The character for one decimal digit.
pub open spec fn digit_char(d: int) -> char {
    if d == 0 {
        '0'
    } else if d == 1 {
        '1'
    } else if d == 2 {
        '2'
    } else if d == 3 {
        '3'
    } else if d == 4 {
        '4'
    } else if d == 5 {
        '5'
    } else if d == 6 {
        '6'
    } else if d == 7 {
        '7'
    } else if d == 8 {
        '8'
    } else {
        '9'
    }
}

/// The usual decimal rendering of a natural number, most significant
/// digit first, with no leading zeroes (except for zero itself).
pub open spec fn dec_seq(n: nat) -> Seq<char>
    decreases n,
{
    if n < 10 {
        seq![digit_char(n as int)]
    } else {
        dec_seq(n / 10).push(digit_char((n % 10) as int))
    }
}

fn digit_str(d: u64) -> (r: &'static str)
    requires
        d < 10,
    ensures
        r@ == seq![digit_char(d as int)],
{
    proof {
        reveal_strlit("0");
        reveal_strlit("1");
        reveal_strlit("2");
        reveal_strlit("3");
        reveal_strlit("4");
        reveal_strlit("5");
        reveal_strlit("6");
        reveal_strlit("7");
        reveal_strlit("8");
        reveal_strlit("9");
    }
    let r: &'static str = if d == 0 {
        "0"
    } else if d == 1 {
        "1"
    } else if d == 2 {
        "2"
    } else if d == 3 {
        "3"
    } else if d == 4 {
        "4"
    } else if d == 5 {
        "5"
    } else if d == 6 {
        "6"
    } else if d == 7 {
        "7"
    } else if d == 8 {
        "8"
    } else {
        "9"
    };
    proof {
        assert(r@ =~= seq![digit_char(d as int)]);
    }
    r
}

/// Renders a number in decimal.
pub fn u64_to_string(n: u64) -> (s: String)
    ensures
        s@ == dec_seq(n as nat),
    decreases n,
{
    if n < 10 {
        let mut s = String::new();
        s.append(digit_str(n));
        proof {
            assert(s@ =~= dec_seq(n as nat));
        }
        s
    } else {
        let mut s = u64_to_string(n / 10);
        s.append(digit_str(n % 10));
        proof {
            assert(s@ =~= dec_seq(n as nat));
        }
        s
    }
}

/// A value held in hundredths (currency in centavos, energy in
/// hundredths of a kWh), rendered with exactly two decimal places.
pub open spec fn hundredths_seq(h: nat) -> Seq<char> {
    dec_seq(h / 100) + seq!['.', digit_char(((h / 10) % 10) as int), digit_char((h % 10) as int)]
}

/// Renders a value held in hundredths with two decimal places.
pub fn hundredths_to_string(h: u64) -> (s: String)
    ensures
        s@ == hundredths_seq(h as nat),
{
    let mut s = u64_to_string(h / 100);
    proof {
        reveal_strlit(".");
    }
    s.append(".");
    s.append(digit_str((h / 10) % 10));
    s.append(digit_str(h % 10));
    proof {
        assert(s@ =~= hundredths_seq(h as nat));
    }
    s
}

/// A value held in tenths (power in deciwatts), rendered with one
/// decimal place.
pub open spec fn tenths_seq(t: nat) -> Seq<char> {
    dec_seq(t / 10) + seq!['.', digit_char((t % 10) as int)]
}

/// Renders a value held in tenths with one decimal place.
pub fn tenths_to_string(t: u64) -> (s: String)
    ensures
        s@ == tenths_seq(t as nat),
{
    let mut s = u64_to_string(t / 10);
    proof {
        reveal_strlit(".");
    }
    s.append(".");
    s.append(digit_str(t % 10));
    proof {
        assert(s@ =~= tenths_seq(t as nat));
    }
    s
}

/// `XhYmZs`: hours, then minutes and seconds within the hour.
pub open spec fn hour_format_seq(total_seconds: nat) -> Seq<char> {
    dec_seq(total_seconds / 3600) + seq!['h'] + dec_seq((total_seconds % 3600) / 60) + seq!['m']
        + dec_seq((total_seconds % 3600) % 60) + seq!['s']
}

/// Renders a duration in seconds as `XhYmZs`.
pub fn seconds_to_hour_format(total_seconds: u64) -> (s: String)
    ensures
        s@ == hour_format_seq(total_seconds as nat),
{
    let hours: u64 = total_seconds / (60 * 60);
    let remainer_hours: u64 = total_seconds % (60 * 60);
    let minutes: u64 = remainer_hours / 60;
    let remainer_minutes: u64 = remainer_hours % 60;
    let seconds: u64 = remainer_minutes % 60;
    proof {
        reveal_strlit("h");
        reveal_strlit("m");
        reveal_strlit("s");
    }
    let mut s = u64_to_string(hours);
    s.append("h");
    let mut rest = u64_to_string(minutes);
    s.append(rest.as_str());
    s.append("m");
    rest = u64_to_string(seconds);
    s.append(rest.as_str());
    s.append("s");
    proof {
        assert(s@ =~= hour_format_seq(total_seconds as nat));
    }
    s
}

} // verus!
