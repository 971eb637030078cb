//! Decimal rendering of integers, including fixed-point values in hundredths.
use vstd::prelude::*;

verus! {

pub open spec fn digit_char(d: nat) -> char {
    if d == 0 { '0' }
    else if d == 1 { '1' }
    else if d == 2 { '2' }
    else if d == 3 { '3' }
    else if d == 4 { '4' }
    else if d == 5 { '5' }
    else if d == 6 { '6' }
    else if d == 7 { '7' }
    else if d == 8 { '8' }
    else { '9' }
}

pub open spec fn is_digit(c: char) -> bool {
    '0' <= c && c <= '9'
}

/// The decimal digits of `n`, most significant first, with no leading zeros.
pub open spec fn decimal(n: nat) -> Seq<char>
    decreases n,
{
    if n < 10 {
        seq![digit_char(n)]
    } else {
        decimal(n / 10) + seq![digit_char(n % 10)]
    }
}

/// `n` hundredths written with two decimal places (`1234` as `12.34`).
pub open spec fn fixed2(n: nat) -> Seq<char> {
    decimal(n / 100) + seq!['.', digit_char((n / 10) % 10), digit_char(n % 10)]
}

/// `n` hundredths written the shortest way: trailing zeros of the fraction are
/// dropped, and the point too where no fraction is left (`4210` as `42.1`,
/// `4200` as `42`).
pub open spec fn short2(n: nat) -> Seq<char> {
    if n % 100 == 0 {
        decimal(n / 100)
    } else if n % 10 == 0 {
        decimal(n / 100) + seq!['.', digit_char((n / 10) % 10)]
    } else {
        fixed2(n)
    }
}

/// A signed number of hundredths written the shortest way (`-150` as `-1.5`).
pub open spec fn signed_short2(v: int) -> Seq<char> {
    if v < 0 {
        seq!['-'] + short2((-v) as nat)
    } else {
        short2(v as nat)
    }
}

fn digit_str(d: u64) -> (r: &'static str)
    requires
        d < 10,
    ensures
        r@ == seq![digit_char(d as nat)],
{
    if d == 0 {
        proof { reveal_strlit("0"); }
        "0"
    } else if d == 1 {
        proof { reveal_strlit("1"); }
        "1"
    } else if d == 2 {
        proof { reveal_strlit("2"); }
        "2"
    } else if d == 3 {
        proof { reveal_strlit("3"); }
        "3"
    } else if d == 4 {
        proof { reveal_strlit("4"); }
        "4"
    } else if d == 5 {
        proof { reveal_strlit("5"); }
        "5"
    } else if d == 6 {
        proof { reveal_strlit("6"); }
        "6"
    } else if d == 7 {
        proof { reveal_strlit("7"); }
        "7"
    } else if d == 8 {
        proof { reveal_strlit("8"); }
        "8"
    } else {
        proof { reveal_strlit("9"); }
        "9"
    }
}

/// Appends the decimal digits of `n` to `s`.
pub fn push_decimal(s: &mut String, n: u64)
    ensures
        final(s)@ == old(s)@ + decimal(n as nat),
    decreases n,
{
    if n >= 10 {
        push_decimal(s, n / 10);
        s.append(digit_str(n % 10));
        assert(s@ =~= old(s)@ + decimal(n as nat));
    } else {
        s.append(digit_str(n));
    }
}

/// Appends `n` hundredths with two decimal places to `s`.
pub fn push_fixed2(s: &mut String, n: u64)
    ensures
        final(s)@ == old(s)@ + fixed2(n as nat),
{
    push_decimal(s, n / 100);
    proof { reveal_strlit("."); }
    s.append(".");
    s.append(digit_str((n / 10) % 10));
    s.append(digit_str(n % 10));
    assert(s@ =~= old(s)@ + fixed2(n as nat));
}

/// Appends `n` hundredths to `s`, written the shortest way.
pub fn push_short2(s: &mut String, n: u64)
    ensures
        final(s)@ == old(s)@ + short2(n as nat),
{
    if n % 100 == 0 {
        push_decimal(s, n / 100);
    } else if n % 10 == 0 {
        push_decimal(s, n / 100);
        proof { reveal_strlit("."); }
        s.append(".");
        s.append(digit_str((n / 10) % 10));
        assert(s@ =~= old(s)@ + short2(n as nat));
    } else {
        push_fixed2(s, n);
    }
}

/// Appends a signed number of hundredths to `s`, written the shortest way.
pub fn push_signed_short2(s: &mut String, v: i64)
    ensures
        final(s)@ == old(s)@ + signed_short2(v as int),
{
    if v < 0 {
        proof { reveal_strlit("-"); }
        s.append("-");
        let magnitude: u64 = ((-(v + 1)) as u64) + 1;
        push_short2(s, magnitude);
        assert(s@ =~= old(s)@ + signed_short2(v as int));
    } else {
        push_short2(s, v as u64);
    }
}

/// The decimal digits of `n` as a new string.
pub fn decimal_string(n: u64) -> (r: String)
    ensures
        r@ == decimal(n as nat),
{
    let mut s = String::new();
    push_decimal(&mut s, n);
    assert(s@ =~= decimal(n as nat));
    s
}

/// `n` hundredths with two decimal places, as a new string.
pub fn fixed2_string(n: u64) -> (r: String)
    ensures
        r@ == fixed2(n as nat),
{
    let mut s = String::new();
    push_fixed2(&mut s, n);
    assert(s@ =~= fixed2(n as nat));
    s
}

} // verus!
