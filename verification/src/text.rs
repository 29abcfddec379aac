//! Text building blocks: concatenation and decimal rendering.

use vstd::prelude::*;

verus! {

/// The character that writes the digit `d` (taken modulo ten).
pub open spec fn digit_char(d: nat) -> char {
    let r = d % 10;
    if r == 0 {
        '0'
    } else if r == 1 {
        '1'
    } else if r == 2 {
        '2'
    } else if r == 3 {
        '3'
    } else if r == 4 {
        '4'
    } else if r == 5 {
        '5'
    } else if r == 6 {
        '6'
    } else if r == 7 {
        '7'
    } else if r == 8 {
        '8'
    } else {
        '9'
    }
}

/// The decimal numeral of `n`: no sign, no leading zero, `"0"` for zero.
pub open spec fn decimal_digits(n: nat) -> Seq<char>
    decreases n,
{
    if n < 10 {
        seq![digit_char(n)]
    } else {
        decimal_digits(n / 10).push(digit_char(n % 10))
    }
}

/// Calls `String::push_str`.
///
/// Trusted: the characters of `piece` are added at the end of `dst`, and
/// nothing else changes.
#[verifier::external_body]
pub(crate) fn append(dst: &mut String, piece: &str)
    ensures
        final(dst)@ == old(dst)@ + piece@,
{
    dst.push_str(piece)
}

fn digit_text(d: u64) -> (t: &'static str)
    requires
        d < 10,
    ensures
        t@ == seq![digit_char(d as nat)],
{
    proof {
        reveal_strlit("0");
        reveal_strlit("1");
        reveal_strlit("2");
        reveal_strlit("3");
        reveal_strlit("4");
        reveal_strlit("5");
        reveal_strlit("6");
        reveal_strlit("7");
        reveal_strlit("8");
        reveal_strlit("9");
    }
    let t = if d == 0 {
        "0"
    } else if d == 1 {
        "1"
    } else if d == 2 {
        "2"
    } else if d == 3 {
        "3"
    } else if d == 4 {
        "4"
    } else if d == 5 {
        "5"
    } else if d == 6 {
        "6"
    } else if d == 7 {
        "7"
    } else if d == 8 {
        "8"
    } else {
        "9"
    };
    assert(t@ =~= seq![digit_char(d as nat)]);
    t
}

/// Writes the decimal numeral of `n` at the end of `dst`.
pub fn write_decimal(dst: &mut String, n: u64)
    ensures
        final(dst)@ == old(dst)@ + decimal_digits(n as nat),
    decreases n,
{
    if n >= 10 {
        write_decimal(dst, n / 10);
    }
    append(dst, digit_text(n % 10));
    assert(dst@ =~= old(dst)@ + decimal_digits(n as nat));
}

/// The decimal numeral of `n`.
pub fn decimal(n: u64) -> (s: String)
    ensures
        s@ == decimal_digits(n as nat),
{
    let mut s = String::new();
    write_decimal(&mut s, n);
    assert(s@ =~= decimal_digits(n as nat));
    s
}

/// Concatenates two pieces of text into a new string.
pub fn joined(a: &str, b: &str) -> (s: String)
    ensures
        s@ == a@ + b@,
{
    let mut s = String::new();
    append(&mut s, a);
    append(&mut s, b);
    assert(s@ =~= a@ + b@);
    s
}

} // verus!
