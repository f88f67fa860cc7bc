//! Decimal and hexadecimal digits, and verified rendering of numbers
//! as character strings.

use vstd::prelude::*;
use vstd::string::StringExecFns;

verus! {

/// A decimal digit character.
pub open spec fn is_dec_digit(c: char) -> bool {
    '0' <= c && c <= '9'
}

/// The numeric value of a decimal digit character.
pub open spec fn digit_val(c: char) -> nat {
    (c as u32 - '0' as u32) as nat
}

/// The digit character for a value below ten.
pub open spec fn dec_digit_char(d: nat) -> char {
    if d == 0 {
        '0'
    } else if d == 1 {
        '1'
    } else if d == 2 {
        '2'
    } else if d == 3 {
        '3'
    } else if d == 4 {
        '4'
    } else if d == 5 {
        '5'
    } else if d == 6 {
        '6'
    } else if d == 7 {
        '7'
    } else if d == 8 {
        '8'
    } else {
        '9'
    }
}

/// The digit character for a value below sixteen, lower case.
pub open spec fn hex_digit_char(d: nat) -> char {
    if d < 10 {
        dec_digit_char(d)
    } else if d == 10 {
        'a'
    } else if d == 11 {
        'b'
    } else if d == 12 {
        'c'
    } else if d == 13 {
        'd'
    } else if d == 14 {
        'e'
    } else {
        'f'
    }
}

/// The value of a string of decimal digits, most significant first.
pub open spec fn dec_val(s: Seq<char>) -> nat
    decreases s.len(),
{
    if s.len() == 0 {
        0
    } else {
        dec_val(s.drop_last()) * 10 + digit_val(s.last())
    }
}

/// The usual decimal rendering of a number: no leading zeros, and a
/// single `'0'` for zero.
pub open spec fn dec_digits(n: nat) -> Seq<char>
    decreases n,
{
    if n < 10 {
        seq![dec_digit_char(n)]
    } else {
        dec_digits(n / 10).push(dec_digit_char(n % 10))
    }
}

/// The usual lower-case hexadecimal rendering of a number: no leading
/// zeros, and a single `'0'` for zero.
pub open spec fn hex_digits(n: nat) -> Seq<char>
    decreases n,
{
    if n < 16 {
        seq![hex_digit_char(n)]
    } else {
        hex_digits(n / 16).push(hex_digit_char(n % 16))
    }
}

/// Every character of the string is a decimal digit.
pub open spec fn all_dec_digits(s: Seq<char>) -> bool {
    forall|i: int| 0 <= i < s.len() ==> is_dec_digit(#[trigger] s[i])
}

/// The decimal rendering of a number is made of digits only.
pub proof fn lemma_dec_digits_are_digits(n: nat)
    ensures
        all_dec_digits(dec_digits(n)),
        dec_digits(n).len() >= 1,
    decreases n,
{
    if n < 10 {
        assert(is_dec_digit(dec_digit_char(n)));
        assert(all_dec_digits(dec_digits(n)));
    } else {
        lemma_dec_digits_are_digits(n / 10);
        assert(is_dec_digit(dec_digit_char(n % 10)));
        assert(forall|i: int|
            0 <= i < dec_digits(n).len() ==> is_dec_digit(#[trigger] dec_digits(n)[i])) by {
            assert(dec_digits(n) == dec_digits(n / 10).push(dec_digit_char(n % 10)));
        };
    }
}

/// Reading the decimal rendering back gives the number itself.
pub proof fn lemma_dec_val_of_digits(n: nat)
    ensures
        dec_val(dec_digits(n)) == n,
    decreases n,
{
    if n < 10 {
        let s = dec_digits(n);
        assert(s =~= seq![dec_digit_char(n)]);
        assert(s.len() == 1);
        assert(s.drop_last() =~= Seq::<char>::empty());
        assert(s.last() == dec_digit_char(n));
        assert(dec_val(Seq::<char>::empty()) == 0);
        assert(dec_val(s) == dec_val(s.drop_last()) * 10 + digit_val(s.last()));
        assert(digit_val(dec_digit_char(n)) == n);
    } else {
        lemma_dec_val_of_digits(n / 10);
        let s = dec_digits(n);
        assert(s == dec_digits(n / 10).push(dec_digit_char(n % 10)));
        assert(s.len() == dec_digits(n / 10).len() + 1);
        assert(s.drop_last() =~= dec_digits(n / 10));
        assert(s.last() == dec_digit_char(n % 10));
        assert(dec_val(s) == dec_val(s.drop_last()) * 10 + digit_val(s.last()));
        assert(digit_val(dec_digit_char(n % 10)) == n % 10);
        assert(dec_val(s) == (n / 10) * 10 + n % 10);
    }
}

/// How long decimal renderings are, up to three digits.
pub proof fn lemma_dec_digits_len(n: nat)
    ensures
        n < 10 ==> dec_digits(n).len() == 1,
        n < 100 ==> dec_digits(n).len() <= 2,
        n < 1000 ==> dec_digits(n).len() <= 3,
    decreases n,
{
    if n >= 10 {
        lemma_dec_digits_len(n / 10);
    }
}

/// Only zero's decimal rendering starts with the zero digit.
pub proof fn lemma_dec_digits_no_leading_zero(n: nat)
    ensures
        dec_digits(n)[0] == '0' ==> n == 0,
    decreases n,
{
    if n < 10 {
        if n != 0 {
            assert(dec_digit_char(n) != '0');
        }
    } else {
        lemma_dec_digits_no_leading_zero(n / 10);
        lemma_dec_digits_are_digits(n / 10);
        assert(dec_digits(n)[0] == dec_digits(n / 10)[0]);
    }
}

/// The one-character string holding the digit for `d`.
pub fn dec_digit_str(d: u8) -> (r: &'static str)
    requires
        d < 10,
    ensures
        r@ == seq![dec_digit_char(d as nat)],
        r@.len() == 1,
{
    let s: &'static str = match d {
        0 => "0",
        1 => "1",
        2 => "2",
        3 => "3",
        4 => "4",
        5 => "5",
        6 => "6",
        7 => "7",
        8 => "8",
        _ => "9",
    };
    proof {
        reveal_strlit("0");
        reveal_strlit("1");
        reveal_strlit("2");
        reveal_strlit("3");
        reveal_strlit("4");
        reveal_strlit("5");
        reveal_strlit("6");
        reveal_strlit("7");
        reveal_strlit("8");
        reveal_strlit("9");
        assert(s@ =~= seq![dec_digit_char(d as nat)]);
    }
    s
}

/// The one-character string holding the lower-case hex digit for `d`.
pub fn hex_digit_str(d: u8) -> (r: &'static str)
    requires
        d < 16,
    ensures
        r@ == seq![hex_digit_char(d as nat)],
        r@.len() == 1,
{
    let s: &'static str = if d < 10 {
        dec_digit_str(d)
    } else {
        match d {
            10 => "a",
            11 => "b",
            12 => "c",
            13 => "d",
            14 => "e",
            _ => "f",
        }
    };
    proof {
        reveal_strlit("a");
        reveal_strlit("b");
        reveal_strlit("c");
        reveal_strlit("d");
        reveal_strlit("e");
        reveal_strlit("f");
        assert(s@ =~= seq![hex_digit_char(d as nat)]);
    }
    s
}

/// Renders `n` in decimal, most significant digit first.
pub fn u64_to_dec(n: u64) -> (r: String)
    ensures
        r@ == dec_digits(n as nat),
    decreases n,
{
    if n < 10 {
        let r = String::from_str(dec_digit_str(n as u8));
        proof {
            assert(r@ =~= dec_digits(n as nat));
        }
        r
    } else {
        let mut r = u64_to_dec(n / 10);
        r.append(dec_digit_str((n % 10) as u8));
        proof {
            assert(r@ =~= dec_digits(n as nat));
        }
        r
    }
}

/// Renders `n` in lower-case hexadecimal, most significant digit first.
pub fn u16_to_hex(n: u16) -> (r: String)
    ensures
        r@ == hex_digits(n as nat),
    decreases n,
{
    if n < 16 {
        let r = String::from_str(hex_digit_str(n as u8));
        proof {
            assert(r@ =~= hex_digits(n as nat));
        }
        r
    } else {
        let mut r = u16_to_hex(n / 16);
        r.append(hex_digit_str((n % 16) as u8));
        proof {
            assert(r@ =~= hex_digits(n as nat));
        }
        r
    }
}

} // verus!
