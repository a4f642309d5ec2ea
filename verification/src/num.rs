//! Base-10 rendering of integers, the form the cell renderer uses for
//! integer-typed cells.

use vstd::prelude::*;

verus! {

/// Relies on String::push: appends exactly one character at the end.
pub assume_specification[ String::push ](s: &mut String, ch: char)
    ensures
        final(s)@ == old(s)@.push(ch),
;

/// The character for one decimal digit.
pub open spec fn digit_char(d: int) -> char {
    ((d + 48) as u8) as char
}

/// The base-10 digit string of a natural number, most significant digit
/// first.
pub open spec fn dec_seq(n: nat) -> Seq<char>
    decreases n,
{
    if n < 10 {
        seq![digit_char(n as int)]
    } else {
        dec_seq(n / 10).push(digit_char((n % 10) as int))
    }
}

/// The base-10 text of an integer: a leading '-' for negative values.
pub open spec fn int_dec(i: int) -> Seq<char> {
    if i >= 0 {
        dec_seq(i as nat)
    } else {
        seq!['-'] + dec_seq((-i) as nat)
    }
}

/// A decimal digit string is never empty, holds digit characters only, and
/// never starts with '0' unless the value itself is zero.
pub proof fn lemma_dec_seq_shape(n: nat)
    ensures
        dec_seq(n).len() >= 1,
        forall|k: int| 0 <= k < dec_seq(n).len() ==> '0' <= #[trigger] dec_seq(n)[k] <= '9',
        n > 0 ==> dec_seq(n)[0] != '0',
        n < 10 ==> dec_seq(n).len() == 1,
    decreases n,
{
    if n >= 10 {
        lemma_dec_seq_shape(n / 10);
    }
}

fn digit_to_char(d: u64) -> (c: char)
    requires
        d < 10,
    ensures
        c == digit_char(d as int),
{
    ((d + 48) as u8) as char
}

/// Appends the base-10 digits of `n` to `s`.
fn push_dec(s: &mut String, n: u64)
    ensures
        final(s)@ == old(s)@ + dec_seq(n as nat),
    decreases n,
{
    if n >= 10 {
        push_dec(s, n / 10);
    }
    let c = digit_to_char(n % 10);
    s.push(c);
    proof {
        assert(s@ =~= old(s)@ + dec_seq(n as nat));
    }
}

/// Renders `n` in base 10.
pub fn u64_to_dec(n: u64) -> (s: String)
    ensures
        s@ == dec_seq(n as nat),
{
    let mut s = String::new();
    push_dec(&mut s, n);
    proof {
        assert(s@ =~= dec_seq(n as nat));
    }
    s
}

/// Renders `i` in base 10, with a leading '-' when negative.
pub fn i64_to_dec(i: i64) -> (s: String)
    ensures
        s@ == int_dec(i as int),
{
    if i >= 0 {
        u64_to_dec(i as u64)
    } else {
        let mut s = String::new();
        s.push('-');
        let mag: u64 = (-(i as i128)) as u64;
        push_dec(&mut s, mag);
        proof {
            assert(s@ =~= int_dec(i as int));
        }
        s
    }
}

} // verus!
