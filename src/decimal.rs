//! Decimal text of small unsigned integers, as used inside escape codes.

use vstd::prelude::*;
use vstd::string::*;

verus! {

/// The ten decimal digits, in order.
pub open spec fn digit_chars() -> Seq<char> {
    seq!['0', '1', '2', '3', '4', '5', '6', '7', '8', '9']
}

/// The character of the decimal digit `d` (`0 <= d < 10`).
pub open spec fn digit(d: nat) -> char {
    digit_chars()[d as int]
}

/// The decimal text of `n`: no sign, no padding and no leading zeros.
pub open spec fn dec(n: nat) -> Seq<char>
    decreases n,
{
    if n < 10 {
        seq![digit(n)]
    } else {
        dec(n / 10).push(digit(n % 10))
    }
}

/// Appends the digit `d` to `f`.
fn push_digit(f: &mut String, d: u8)
    requires
        d < 10,
    ensures
        final(f)@ == old(f)@.push(digit(d as nat)),
{
    proof {
        reveal_strlit("0");
        reveal_strlit("1");
        reveal_strlit("2");
        reveal_strlit("3");
        reveal_strlit("4");
        reveal_strlit("5");
        reveal_strlit("6");
        reveal_strlit("7");
        reveal_strlit("8");
        reveal_strlit("9");
    }
    let s: &str = match d {
        0 => "0",
        1 => "1",
        2 => "2",
        3 => "3",
        4 => "4",
        5 => "5",
        6 => "6",
        7 => "7",
        8 => "8",
        _ => "9",
    };
    f.append(s);
    assert(f@ =~= old(f)@.push(digit(d as nat)));
}

/// Appends the decimal text of `n` to `f`.
pub fn push_decimal(f: &mut String, n: u8)
    ensures
        final(f)@ == old(f)@ + dec(n as nat),
{
    let ghost start = f@;
    if n >= 100 {
        push_digit(f, n / 100);
    }
    if n >= 10 {
        push_digit(f, (n / 10) % 10);
    }
    push_digit(f, n % 10);
    proof {
        let m = n as nat;
        if m >= 100 {
            assert(dec(m / 100) == seq![digit(m / 100)]);
            assert(dec(m / 10) == dec((m / 10) / 10).push(digit((m / 10) % 10)));
            assert((m / 10) / 10 == m / 100);
        } else if m >= 10 {
            assert(dec(m / 10) == seq![digit(m / 10)]);
            assert((m / 10) % 10 == m / 10);
        }
        assert(f@ =~= start + dec(m));
    }
}

} // verus!
