//! Writing integers as text.
use vstd::prelude::*;
use crate::bigint::{BigInt, digit_char, hex_digit_char, int_decimal, nat_decimal, nat_hex};

verus! {

/// Appends the character of the hexadecimal digit `d`.
fn push_hex_digit(s: &mut String, d: u8)
    requires
        d < 16,
    ensures
        final(s)@ == old(s)@.push(hex_digit_char(d as int)),
{
    let t: &str = if d == 0 {
        "0"
    } else if d == 1 {
        "1"
    } else if d == 2 {
        "2"
    } else if d == 3 {
        "3"
    } else if d == 4 {
        "4"
    } else if d == 5 {
        "5"
    } else if d == 6 {
        "6"
    } else if d == 7 {
        "7"
    } else if d == 8 {
        "8"
    } else if d == 9 {
        "9"
    } else if d == 10 {
        "a"
    } else if d == 11 {
        "b"
    } else if d == 12 {
        "c"
    } else if d == 13 {
        "d"
    } else if d == 14 {
        "e"
    } else {
        "f"
    };
    proof {
        reveal_strlit("0");
        reveal_strlit("1");
        reveal_strlit("2");
        reveal_strlit("3");
        reveal_strlit("4");
        reveal_strlit("5");
        reveal_strlit("6");
        reveal_strlit("7");
        reveal_strlit("8");
        reveal_strlit("9");
        reveal_strlit("a");
        reveal_strlit("b");
        reveal_strlit("c");
        reveal_strlit("d");
        reveal_strlit("e");
        reveal_strlit("f");
    }
    s.append(t);
    assert(final(s)@ =~= old(s)@.push(hex_digit_char(d as int)));
}

/// Appends the decimal notation of `n`.
pub fn push_u128(s: &mut String, n: u128)
    ensures
        final(s)@ == old(s)@ + nat_decimal(n as nat),
    decreases n,
{
    if n >= 10 {
        push_u128(s, n / 10);
    }
    push_hex_digit(s, (n % 10) as u8);
    proof {
        assert(hex_digit_char((n % 10) as int) == digit_char((n % 10) as int));
        if n >= 10 {
            assert(nat_decimal(n as nat) == nat_decimal((n / 10) as nat).push(
                digit_char((n % 10) as int),
            ));
        }
    }
    assert(final(s)@ =~= old(s)@ + nat_decimal(n as nat));
}

/// Appends the lower-case hexadecimal notation of `n`, without prefix.
pub fn push_hex(s: &mut String, n: u128)
    ensures
        final(s)@ == old(s)@ + nat_hex(n as nat),
    decreases n,
{
    if n >= 16 {
        push_hex(s, n / 16);
    }
    push_hex_digit(s, (n % 16) as u8);
    assert(final(s)@ =~= old(s)@ + nat_hex(n as nat));
}

/// Appends the decimal notation of `n`.
pub fn push_usize(s: &mut String, n: usize)
    ensures
        final(s)@ == old(s)@ + int_decimal(n as int),
{
    push_u128(s, n as u128);
}

/// Appends the decimal notation of `n`.
pub fn push_isize(s: &mut String, n: isize)
    ensures
        final(s)@ == old(s)@ + int_decimal(n as int),
{
    if n < 0 {
        s.append("-");
        proof {
            reveal_strlit("-");
        }
        let m: u128 = (0 - (n as i128)) as u128;
        push_u128(s, m);
        assert(final(s)@ =~= old(s)@ + int_decimal(n as int));
    } else {
        push_u128(s, n as u128);
    }
}

/// Appends the decimal notation of `n`.
pub fn push_bigint(s: &mut String, n: &BigInt)
    ensures
        final(s)@ == old(s)@ + int_decimal(n@),
{
    let d = n.to_decimal_string();
    s.append(d.as_str());
}

} // verus!
