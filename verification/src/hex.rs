//! Hexadecimal encoding and decoding of unsigned integers, in the
//! `0x`-prefixed lowercase form the wire protocol uses, with a proof that
//! decoding inverts encoding.

use vstd::arithmetic::div_mod::lemma_fundamental_div_mod;
use vstd::prelude::*;

use crate::text::chars_to_string;

verus! {

/// The hexadecimal digit character for a value below 16 (lowercase).
pub open spec fn hex_digit(d: nat) -> char {
    if d == 0 {
        '0'
    } else if d == 1 {
        '1'
    } else if d == 2 {
        '2'
    } else if d == 3 {
        '3'
    } else if d == 4 {
        '4'
    } else if d == 5 {
        '5'
    } else if d == 6 {
        '6'
    } else if d == 7 {
        '7'
    } else if d == 8 {
        '8'
    } else if d == 9 {
        '9'
    } else if d == 10 {
        'a'
    } else if d == 11 {
        'b'
    } else if d == 12 {
        'c'
    } else if d == 13 {
        'd'
    } else if d == 14 {
        'e'
    } else {
        'f'
    }
}

/// The hexadecimal digits of `n`, most significant first; empty for zero.
pub open spec fn hex_digits(n: nat) -> Seq<char>
    decreases n,
{
    if n == 0 {
        Seq::empty()
    } else {
        hex_digits(n / 16) + seq![hex_digit(n % 16)]
    }
}

/// The `0x`-prefixed lowercase hexadecimal rendering of `n`, as
/// `format!("{:#x}", n)` produces it (`"0x0"` for zero).
pub open spec fn hex_str(n: nat) -> Seq<char> {
    if n == 0 {
        seq!['0', 'x', '0']
    } else {
        seq!['0', 'x'] + hex_digits(n)
    }
}

/// Whether `c` is a hexadecimal digit, in either case.
pub open spec fn is_hex_digit_char(c: char) -> bool {
    ('0' <= c && c <= '9') || ('a' <= c && c <= 'f') || ('A' <= c && c <= 'F')
}

/// The value of the hexadecimal digit `c`.
pub open spec fn hex_char_val(c: char) -> nat {
    if '0' <= c && c <= '9' {
        ((c as int) - ('0' as int)) as nat
    } else if 'a' <= c && c <= 'f' {
        ((c as int) - ('a' as int) + 10) as nat
    } else {
        ((c as int) - ('A' as int) + 10) as nat
    }
}

/// Whether every character of `s` is a hexadecimal digit.
pub open spec fn all_hex_digits(s: Seq<char>) -> bool {
    forall|i: int| 0 <= i < s.len() ==> is_hex_digit_char(#[trigger] s[i])
}

/// The value of a sequence of hexadecimal digits, most significant first.
pub open spec fn hex_value(s: Seq<char>) -> nat
    decreases s.len(),
{
    if s.len() == 0 {
        0
    } else {
        hex_value(s.drop_last()) * 16 + hex_char_val(s.last())
    }
}

/// Whether `s` is a well-formed `0x`-prefixed hexadecimal numeral:
/// the prefix followed by at least one hexadecimal digit.
pub open spec fn is_hex_numeral(s: Seq<char>) -> bool {
    s.len() >= 3 && s[0] == '0' && s[1] == 'x' && all_hex_digits(s.skip(2))
}

/// The numeric value of a well-formed `0x`-prefixed hexadecimal numeral.
pub open spec fn hex_numeral_value(s: Seq<char>) -> nat {
    hex_value(s.skip(2))
}

pub(crate) fn hex_digit_char(d: u8) -> (r: char)
    requires
        d < 16,
    ensures
        r == hex_digit(d as nat),
{
    if d == 0 {
        '0'
    } else if d == 1 {
        '1'
    } else if d == 2 {
        '2'
    } else if d == 3 {
        '3'
    } else if d == 4 {
        '4'
    } else if d == 5 {
        '5'
    } else if d == 6 {
        '6'
    } else if d == 7 {
        '7'
    } else if d == 8 {
        '8'
    } else if d == 9 {
        '9'
    } else if d == 10 {
        'a'
    } else if d == 11 {
        'b'
    } else if d == 12 {
        'c'
    } else if d == 13 {
        'd'
    } else if d == 14 {
        'e'
    } else {
        'f'
    }
}

fn push_hex_digits(n: u128, out: &mut Vec<char>)
    ensures
        final(out)@ == old(out)@ + hex_digits(n as nat),
    decreases n,
{
    if n == 0 {
        proof {
            assert(out@ =~= out@ + hex_digits(n as nat));
        }
    } else {
        push_hex_digits(n / 16, out);
        let d = hex_digit_char((n % 16) as u8);
        out.push(d);
        proof {
            assert(out@ =~= old(out)@ + hex_digits(n as nat));
        }
    }
}

/// Renders `n` as a `0x`-prefixed lowercase hexadecimal string.
pub fn u128_to_hex(n: u128) -> (r: String)
    ensures
        r@ == hex_str(n as nat),
{
    let mut out: Vec<char> = Vec::new();
    out.push('0');
    out.push('x');
    if n == 0 {
        out.push('0');
    } else {
        push_hex_digits(n, &mut out);
    }
    proof {
        assert(out@ =~= hex_str(n as nat));
    }
    chars_to_string(out)
}

/// Renders `n` as a `0x`-prefixed lowercase hexadecimal string.
pub fn u64_to_hex(n: u64) -> (r: String)
    ensures
        r@ == hex_str(n as nat),
{
    u128_to_hex(n as u128)
}

fn hex_char_value(c: char) -> (r: Option<u8>)
    ensures
        r is Some <==> is_hex_digit_char(c),
        r is Some ==> r->0 as nat == hex_char_val(c) && r->0 < 16,
{
    if '0' <= c && c <= '9' {
        Some((c as u8) - ('0' as u8))
    } else if 'a' <= c && c <= 'f' {
        Some((c as u8) - ('a' as u8) + 10)
    } else if 'A' <= c && c <= 'F' {
        Some((c as u8) - ('A' as u8) + 10)
    } else {
        None
    }
}

proof fn lemma_hex_value_step(s: Seq<char>, i: int)
    requires
        0 <= i < s.len(),
    ensures
        hex_value(s.take(i + 1)) == hex_value(s.take(i)) * 16 + hex_char_val(s[i]),
{
    assert(s.take(i + 1).drop_last() =~= s.take(i));
    assert(s.take(i + 1).last() == s[i]);
}

proof fn lemma_hex_value_grows(s: Seq<char>, i: int)
    requires
        0 <= i <= s.len(),
    ensures
        hex_value(s.take(i)) <= hex_value(s),
    decreases s.len() - i,
{
    if i == s.len() {
        assert(s.take(i) =~= s);
    } else {
        lemma_hex_value_step(s, i);
        lemma_hex_value_grows(s, i + 1);
    }
}

/// Parses a `0x`-prefixed hexadecimal string (either digit case accepted).
/// Returns `None` exactly when the string is not a well-formed numeral or
/// its value does not fit in a `u128`.
pub fn parse_hex_u128(s: &str) -> (r: Option<u128>)
    ensures
        r is Some <==> is_hex_numeral(s@) && hex_numeral_value(s@) <= u128::MAX,
        r is Some ==> r->0 as nat == hex_numeral_value(s@),
{
    let len = s.unicode_len();
    if len < 3 || s.get_char(0) != '0' || s.get_char(1) != 'x' {
        return None;
    }
    let ghost digits = s@.skip(2);
    let mut acc: u128 = 0;
    let mut i: usize = 2;
    while i < len
        invariant
            2 <= i <= len,
            len == s@.len(),
            3 <= len,
            digits == s@.skip(2),
            all_hex_digits(digits.take(i - 2)),
            acc as nat == hex_value(digits.take(i - 2)),
        decreases len - i,
    {
        let c = s.get_char(i);
        proof {
            assert(digits[i - 2] == s@[i as int]);
        }
        match hex_char_value(c) {
            None => {
                return None;
            },
            Some(d) => {
                if acc > (u128::MAX - (d as u128)) / 16 {
                    proof {
                        lemma_hex_value_step(digits, i - 2);
                        lemma_hex_value_grows(digits, i - 1);
                        assert(digits.take(digits.len() as int) =~= digits);
                    }
                    return None;
                }
                acc = acc * 16 + (d as u128);
                proof {
                    lemma_hex_value_step(digits, i - 2);
                }
            },
        }
        i = i + 1;
    }
    proof {
        assert(digits.take(digits.len() as int) =~= digits);
    }
    Some(acc)
}

/// Parses a `0x`-prefixed hexadecimal string into a `u32`. Returns `None`
/// exactly when the string is malformed or the value does not fit.
pub fn parse_hex_u32(s: &str) -> (r: Option<u32>)
    ensures
        r is Some <==> is_hex_numeral(s@) && hex_numeral_value(s@) <= u32::MAX,
        r is Some ==> r->0 as nat == hex_numeral_value(s@),
{
    match parse_hex_u128(s) {
        None => None,
        Some(v) => {
            if v <= u32::MAX as u128 {
                Some(v as u32)
            } else {
                None
            }
        },
    }
}

proof fn lemma_hex_digit_val(d: nat)
    requires
        d < 16,
    ensures
        is_hex_digit_char(hex_digit(d)),
        hex_char_val(hex_digit(d)) == d,
{
}

proof fn lemma_hex_digits_value(n: nat)
    ensures
        all_hex_digits(hex_digits(n)),
        hex_value(hex_digits(n)) == n,
        n > 0 ==> hex_digits(n).len() >= 1,
    decreases n,
{
    if n == 0 {
    } else {
        lemma_hex_digits_value(n / 16);
        lemma_hex_digit_val(n % 16);
        lemma_fundamental_div_mod(n as int, 16);
        let s = hex_digits(n);
        assert(s.drop_last() =~= hex_digits(n / 16));
        assert(s.last() == hex_digit(n % 16));
        assert forall|i: int| 0 <= i < s.len() implies is_hex_digit_char(#[trigger] s[i]) by {
            if i < s.len() - 1 {
                assert(s[i] == hex_digits(n / 16)[i]);
            }
        }
    }
}

/// Encoding then decoding is the identity: for every `n`, the rendering
/// `hex_str(n)` is a well-formed `0x`-prefixed numeral whose value is `n`.
/// This covers the whole 128-bit range, and so the 32-bit range as well.
pub proof fn lemma_hex_round_trip(n: nat)
    ensures
        is_hex_numeral(hex_str(n)),
        hex_numeral_value(hex_str(n)) == n,
{
    if n == 0 {
        assert(hex_str(0).skip(2) =~= seq!['0']);
        assert(hex_value(seq!['0']) == 0) by {
            assert(seq!['0'].drop_last() =~= Seq::<char>::empty());
            assert(seq!['0'].last() == '0');
            assert(hex_char_val('0') == 0);
            assert(hex_value(Seq::<char>::empty()) == 0);
        }
    } else {
        lemma_hex_digits_value(n);
        assert(hex_str(n).skip(2) =~= hex_digits(n));
    }
}

} // verus!
