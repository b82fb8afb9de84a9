//! Whole numbers written out in decimal digits.

use vstd::prelude::*;
use vstd::string::*;

verus! {

/// The digit that stands for `d`, a number below ten.
pub open spec fn digit(d: nat) -> char {
    if d == 0 {
        '0'
    } else if d == 1 {
        '1'
    } else if d == 2 {
        '2'
    } else if d == 3 {
        '3'
    } else if d == 4 {
        '4'
    } else if d == 5 {
        '5'
    } else if d == 6 {
        '6'
    } else if d == 7 {
        '7'
    } else if d == 8 {
        '8'
    } else {
        '9'
    }
}

/// The decimal digits of `n`, the most significant first, without leading
/// zeros; the one digit `0` for zero.
pub open spec fn digits(n: nat) -> Seq<char>
    decreases n,
{
    if n < 10 {
        Seq::empty().push(digit(n))
    } else {
        digits(n / 10).push(digit(n % 10))
    }
}

/// The number `n` in decimal digits, with a minus sign before them if it is
/// negative.
pub open spec fn decimal(n: int) -> Seq<char> {
    if n < 0 {
        Seq::empty().push('-') + digits((-n) as nat)
    } else {
        digits(n as nat)
    }
}

fn digit_text(d: u64) -> (r: &'static str)
    requires
        d < 10,
    ensures
        r@ == Seq::<char>::empty().push(digit(d as nat)),
{
    proof {
        reveal_strlit("0");
        reveal_strlit("1");
        reveal_strlit("2");
        reveal_strlit("3");
        reveal_strlit("4");
        reveal_strlit("5");
        reveal_strlit("6");
        reveal_strlit("7");
        reveal_strlit("8");
        reveal_strlit("9");
    }
    let r = if d == 0 {
        "0"
    } else if d == 1 {
        "1"
    } else if d == 2 {
        "2"
    } else if d == 3 {
        "3"
    } else if d == 4 {
        "4"
    } else if d == 5 {
        "5"
    } else if d == 6 {
        "6"
    } else if d == 7 {
        "7"
    } else if d == 8 {
        "8"
    } else {
        "9"
    };
    assert(r@ =~= Seq::<char>::empty().push(digit(d as nat)));
    r
}

/// Appends the decimal digits of `n` to `out`.
pub fn push_digits(out: &mut String, n: u64)
    ensures
        final(out)@ == old(out)@ + digits(n as nat),
    decreases n,
{
    if n >= 10 {
        push_digits(out, n / 10);
        out.append(digit_text(n % 10));
        assert(old(out)@ + digits(n as nat / 10).push(digit(n as nat % 10)) =~= old(out)@ + digits(
            n as nat / 10,
        ) + Seq::<char>::empty().push(digit(n as nat % 10)));
    } else {
        out.append(digit_text(n));
    }
}

/// Appends the number `n` in decimal to `out`.
pub fn push_decimal(out: &mut String, n: i32)
    ensures
        final(out)@ == old(out)@ + decimal(n as int),
{
    if n < 0 {
        out.append("-");
        proof {
            reveal_strlit("-");
            assert("-"@ =~= Seq::<char>::empty().push('-'));
        }
        let magnitude: u64 = (-(n as i64)) as u64;
        push_digits(out, magnitude);
        assert(old(out)@ + Seq::<char>::empty().push('-') + digits((-n) as nat) =~= old(out)@ + (
        Seq::<char>::empty().push('-') + digits((-n) as nat)));
    } else {
        push_digits(out, n as u64);
    }
}

} // verus!
