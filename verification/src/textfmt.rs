//! Verified construction of the fixed-format strings shown on the display:
//! zero-padded `HH:MM:SS` times, `DD.MM.YYYY` dates and the tenths-precision
//! decimal numbers of the weather read-out.

use vstd::prelude::*;

verus! {

/// The decimal digit character for `d`.
pub open spec fn spec_digit(d: int) -> char {
    if d == 0 {
        '0'
    } else if d == 1 {
        '1'
    } else if d == 2 {
        '2'
    } else if d == 3 {
        '3'
    } else if d == 4 {
        '4'
    } else if d == 5 {
        '5'
    } else if d == 6 {
        '6'
    } else if d == 7 {
        '7'
    } else if d == 8 {
        '8'
    } else {
        '9'
    }
}

/// The decimal digit string of `n`, most significant digit first, without
/// leading zeros (a single `'0'` for zero).
pub open spec fn spec_dec_nat(n: nat) -> Seq<char>
    decreases n,
{
    if n < 10 {
        seq![spec_digit(n as int)]
    } else {
        spec_dec_nat(n / 10) + seq![spec_digit((n % 10) as int)]
    }
}

/// The decimal string of `n`, with a leading `'-'` when negative.
pub open spec fn spec_dec_int(n: int) -> Seq<char> {
    if n < 0 {
        seq!['-'] + spec_dec_nat((-n) as nat)
    } else {
        spec_dec_nat(n as nat)
    }
}

/// `n` in decimal, zero-padded on the left to at least two digits.
pub open spec fn spec_pad2(n: nat) -> Seq<char> {
    if n < 10 {
        seq!['0', spec_digit(n as int)]
    } else {
        spec_dec_nat(n)
    }
}

/// `"HH:MM:SS"` with each field zero-padded to two digits.
pub open spec fn spec_time_str(h: nat, m: nat, s: nat) -> Seq<char> {
    spec_pad2(h) + seq![':'] + spec_pad2(m) + seq![':'] + spec_pad2(s)
}

/// `"DD.MM.YYYY"`: day and month zero-padded to two digits, the year plain.
pub open spec fn spec_date_str(d: nat, m: nat, y: int) -> Seq<char> {
    spec_pad2(d) + seq!['.'] + spec_pad2(m) + seq!['.'] + spec_dec_int(y)
}

/// The decimal string of the number of tenths `t`, written with one digit
/// after the point: `213` becomes `"21.3"`, `-5` becomes `"-0.5"`.
pub open spec fn spec_deci(t: int) -> Seq<char> {
    if t < 0 {
        seq!['-'] + spec_deci_nn((-t) as nat)
    } else {
        spec_deci_nn(t as nat)
    }
}

pub open spec fn spec_deci_nn(t: nat) -> Seq<char> {
    spec_dec_nat(t / 10) + seq!['.'] + seq![spec_digit((t % 10) as int)]
}

fn digit_str(d: u64) -> (r: &'static str)
    requires
        d < 10,
    ensures
        r@ == seq![spec_digit(d as int)],
{
    proof {
        reveal_strlit("0");
        reveal_strlit("1");
        reveal_strlit("2");
        reveal_strlit("3");
        reveal_strlit("4");
        reveal_strlit("5");
        reveal_strlit("6");
        reveal_strlit("7");
        reveal_strlit("8");
        reveal_strlit("9");
    }
    match d {
        0 => "0",
        1 => "1",
        2 => "2",
        3 => "3",
        4 => "4",
        5 => "5",
        6 => "6",
        7 => "7",
        8 => "8",
        _ => "9",
    }
}

/// The decimal digit string of `n`.
pub fn dec_u64(n: u64) -> (s: String)
    ensures
        s@ == spec_dec_nat(n as nat),
    decreases n,
{
    if n < 10 {
        String::from_str(digit_str(n))
    } else {
        let mut s = dec_u64(n / 10);
        s.append(digit_str(n % 10));
        s
    }
}

/// The decimal string of `n`, signed.
pub fn dec_i64(n: i64) -> (s: String)
    ensures
        s@ == spec_dec_int(n as int),
{
    if n < 0 {
        let mag: u64 = (-(n as i128)) as u64;
        let mut s = String::from_str("-");
        proof {
            reveal_strlit("-");
        }
        s.append(dec_u64(mag).as_str());
        s
    } else {
        dec_u64(n as u64)
    }
}

/// `n` in decimal, zero-padded on the left to at least two digits.
pub fn pad2(n: u64) -> (s: String)
    ensures
        s@ == spec_pad2(n as nat),
{
    if n < 10 {
        let mut s = String::from_str("0");
        proof {
            reveal_strlit("0");
        }
        s.append(digit_str(n));
        s
    } else {
        dec_u64(n)
    }
}

/// Formats a wall-clock time as `"HH:MM:SS"`, each field zero-padded.
pub fn format_time(hour: u32, minute: u32, second: u32) -> (s: String)
    ensures
        s@ == spec_time_str(hour as nat, minute as nat, second as nat),
{
    let mut s = pad2(hour as u64);
    s.append(":");
    proof {
        reveal_strlit(":");
    }
    s.append(pad2(minute as u64).as_str());
    s.append(":");
    s.append(pad2(second as u64).as_str());
    s
}

/// Formats a calendar date as `"DD.MM.YYYY"`.
pub fn format_date(day: u32, month: u32, year: i32) -> (s: String)
    ensures
        s@ == spec_date_str(day as nat, month as nat, year as int),
{
    let mut s = pad2(day as u64);
    s.append(".");
    proof {
        reveal_strlit(".");
    }
    s.append(pad2(month as u64).as_str());
    s.append(".");
    s.append(dec_i64(year as i64).as_str());
    s
}

/// Formats a signed number of tenths with one digit after the point, as the
/// display shows temperatures and wind speeds.
pub fn format_deci(t: i32) -> (s: String)
    ensures
        s@ == spec_deci(t as int),
{
    if t < 0 {
        let mag: u64 = (-(t as i64)) as u64;
        let mut s = String::from_str("-");
        proof {
            reveal_strlit("-");
        }
        s.append(dec_u64(mag / 10).as_str());
        s.append(".");
        proof {
            reveal_strlit(".");
        }
        s.append(digit_str(mag % 10));
        s
    } else {
        let mut s = dec_u64((t as u64) / 10);
        s.append(".");
        proof {
            reveal_strlit(".");
        }
        s.append(digit_str((t as u64) % 10));
        s
    }
}

} // verus!
