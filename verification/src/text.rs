//! Decimal rendering of integers, and joining of text pieces.

use vstd::prelude::*;
use vstd::string::StringExecFns;

verus! {

/// The decimal digit `d` (for `0 <= d < 10`).
pub open spec fn digit_char(d: int) -> char {
    seq!['0', '1', '2', '3', '4', '5', '6', '7', '8', '9'][d]
}

/// The decimal digits of `n`, most significant first, without leading zeros.
pub open spec fn dec_nat(n: nat) -> Seq<char>
    decreases n,
{
    if n < 10 {
        seq![digit_char(n as int)]
    } else {
        dec_nat(n / 10) + seq![digit_char((n % 10) as int)]
    }
}

/// The decimal rendering of `n`, with a leading `-` when it is negative.
pub open spec fn dec_int(n: int) -> Seq<char> {
    if n < 0 {
        seq!['-'] + dec_nat((-n) as nat)
    } else {
        dec_nat(n as nat)
    }
}

/// The pieces of `parts`, with `", "` between each two of them.
pub open spec fn join_comma(parts: Seq<Seq<char>>) -> Seq<char>
    decreases parts.len(),
{
    if parts.len() == 0 {
        Seq::empty()
    } else if parts.len() == 1 {
        parts[0]
    } else {
        join_comma(parts.drop_last()) + seq![',', ' '] + parts.last()
    }
}

/// The one-character string of the digit `d`.
fn digit_str(d: u64) -> (s: &'static str)
    requires
        d < 10,
    ensures
        s@ == seq![digit_char(d as int)],
{
    proof {
        reveal_strlit("0");
        reveal_strlit("1");
        reveal_strlit("2");
        reveal_strlit("3");
        reveal_strlit("4");
        reveal_strlit("5");
        reveal_strlit("6");
        reveal_strlit("7");
        reveal_strlit("8");
        reveal_strlit("9");
    }
    match d {
        0 => "0",
        1 => "1",
        2 => "2",
        3 => "3",
        4 => "4",
        5 => "5",
        6 => "6",
        7 => "7",
        8 => "8",
        _ => "9",
    }
}

/// The decimal rendering of an unsigned integer.
pub fn fmt_u64(n: u64) -> (s: String)
    ensures
        s@ == dec_nat(n as nat),
    decreases n,
{
    if n < 10 {
        String::from_str(digit_str(n))
    } else {
        let mut s = fmt_u64(n / 10);
        s.append(digit_str(n % 10));
        s
    }
}

/// The decimal rendering of a `usize`.
pub fn fmt_usize(n: usize) -> (s: String)
    ensures
        s@ == dec_nat(n as nat),
{
    fmt_u64(n as u64)
}

/// The decimal rendering of a signed integer.
pub fn fmt_isize(n: isize) -> (s: String)
    ensures
        s@ == dec_int(n as int),
{
    if n < 0 {
        let m: i128 = -(n as i128);
        let mut s = String::from_str("-");
        proof {
            reveal_strlit("-");
        }
        let digits = fmt_u64(m as u64);
        s.append(digits.as_str());
        s
    } else {
        fmt_u64(n as u64)
    }
}

/// The decimal rendering of an `i64`.
pub fn fmt_i64(n: i64) -> (s: String)
    ensures
        s@ == dec_int(n as int),
{
    if n < 0 {
        let m: i128 = -(n as i128);
        let mut s = String::from_str("-");
        proof {
            reveal_strlit("-");
        }
        let digits = fmt_u64(m as u64);
        s.append(digits.as_str());
        s
    } else {
        fmt_u64(n as u64)
    }
}

} // verus!
