//! Building strings from character vectors, and decimal rendering of
//! unsigned integers.

use vstd::prelude::*;

verus! {

/// Relies on std's `FromIterator` impl for `String`: collecting an owned
/// vector of `char`s yields the string with exactly those characters.
#[verifier::external_body]
pub fn chars_to_string(v: Vec<char>) -> (r: String)
    ensures
        r@ == v@,
{
    v.into_iter().collect()
}

/// The decimal digit character for a value below 10.
pub open spec fn dec_digit(d: nat) -> char {
    if d == 0 {
        '0'
    } else if d == 1 {
        '1'
    } else if d == 2 {
        '2'
    } else if d == 3 {
        '3'
    } else if d == 4 {
        '4'
    } else if d == 5 {
        '5'
    } else if d == 6 {
        '6'
    } else if d == 7 {
        '7'
    } else if d == 8 {
        '8'
    } else {
        '9'
    }
}

/// The decimal digits of `n`, most significant first; empty for zero.
pub open spec fn dec_digits(n: nat) -> Seq<char>
    decreases n,
{
    if n == 0 {
        Seq::empty()
    } else {
        dec_digits(n / 10) + seq![dec_digit(n % 10)]
    }
}

/// The usual decimal rendering of `n`: its digits, with `"0"` for zero.
pub open spec fn dec_rep(n: nat) -> Seq<char> {
    if n == 0 {
        seq!['0']
    } else {
        dec_digits(n)
    }
}

fn dec_digit_char(d: u64) -> (r: char)
    requires
        d < 10,
    ensures
        r == dec_digit(d as nat),
{
    if d == 0 {
        '0'
    } else if d == 1 {
        '1'
    } else if d == 2 {
        '2'
    } else if d == 3 {
        '3'
    } else if d == 4 {
        '4'
    } else if d == 5 {
        '5'
    } else if d == 6 {
        '6'
    } else if d == 7 {
        '7'
    } else if d == 8 {
        '8'
    } else {
        '9'
    }
}

pub(crate) fn push_dec_digits(n: u64, out: &mut Vec<char>)
    ensures
        final(out)@ == old(out)@ + dec_digits(n as nat),
    decreases n,
{
    if n == 0 {
        proof {
            assert(out@ =~= out@ + dec_digits(n as nat));
        }
    } else {
        push_dec_digits(n / 10, out);
        let d = dec_digit_char(n % 10);
        out.push(d);
        proof {
            assert(out@ =~= old(out)@ + dec_digits(n as nat));
        }
    }
}

/// Renders `n` in decimal, as `n.to_string()` would.
pub fn u64_to_dec(n: u64) -> (r: String)
    ensures
        r@ == dec_rep(n as nat),
{
    let mut out: Vec<char> = Vec::new();
    if n == 0 {
        out.push('0');
    } else {
        push_dec_digits(n, &mut out);
    }
    proof {
        assert(out@ =~= dec_rep(n as nat));
    }
    chars_to_string(out)
}

} // verus!
