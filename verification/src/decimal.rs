//! Decimal rendering of integers, as `Display` writes them.

use vstd::prelude::*;

verus! {

/// The ASCII digit for `d`, which must be below ten.
pub open spec fn digit_char(d: nat) -> char {
    if d == 0 { '0' }
    else if d == 1 { '1' }
    else if d == 2 { '2' }
    else if d == 3 { '3' }
    else if d == 4 { '4' }
    else if d == 5 { '5' }
    else if d == 6 { '6' }
    else if d == 7 { '7' }
    else if d == 8 { '8' }
    else { '9' }
}

/// The decimal digits of `n`, most significant first, without leading zeros
/// (zero is the single digit `0`).
pub open spec fn digits(n: nat) -> Seq<char>
    decreases n,
{
    if n < 10 {
        seq![digit_char(n)]
    } else {
        digits(n / 10).push(digit_char(n % 10))
    }
}

/// The decimal text of `i`: a `-` before the digits of its magnitude when it
/// is negative.
pub open spec fn decimal(i: int) -> Seq<char> {
    if i < 0 {
        seq!['-'] + digits((-i) as nat)
    } else {
        digits(i as nat)
    }
}

/// Appends `c` to `s`.
#[verifier::external_body]
fn push_char(s: &mut String, c: char)
    ensures
        final(s)@ == old(s)@.push(c),
{
    s.push(c);
}

fn digit(d: u64) -> (c: char)
    requires
        d < 10,
    ensures
        c == digit_char(d as nat),
{
    if d == 0 { '0' }
    else if d == 1 { '1' }
    else if d == 2 { '2' }
    else if d == 3 { '3' }
    else if d == 4 { '4' }
    else if d == 5 { '5' }
    else if d == 6 { '6' }
    else if d == 7 { '7' }
    else if d == 8 { '8' }
    else { '9' }
}

fn push_digits(s: &mut String, n: u64)
    ensures
        final(s)@ == old(s)@ + digits(n as nat),
    decreases n,
{
    if n >= 10 {
        push_digits(s, n / 10);
    }
    push_char(s, digit(n % 10));
    assert(n >= 10 ==> digits(n as nat) == digits((n / 10) as nat).push(digit_char((n % 10) as nat)));
}

/// Appends the decimal text of `i` to `s`.
pub fn push_decimal(s: &mut String, i: i64)
    ensures
        final(s)@ == old(s)@ + decimal(i as int),
{
    if i < 0 {
        push_char(s, '-');
        let magnitude: u64 = if i == i64::MIN {
            9_223_372_036_854_775_808u64
        } else {
            (-i) as u64
        };
        push_digits(s, magnitude);
        assert(s@ =~= old(s)@ + decimal(i as int));
    } else {
        push_digits(s, i as u64);
    }
}

} // verus!
