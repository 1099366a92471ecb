//! Small text builders shared by the formatting code: decimal digits,
//! zero padding and single characters.

use vstd::prelude::*;

verus! {

/// The decimal digit character for `d` (expected to be below ten).
pub open spec fn digit_char(d: int) -> char {
    (48 + d) as char
}

/// The decimal representation of `n`, most significant digit first, without
/// leading zeros (zero itself is `"0"`).
pub open spec fn dec_digits(n: nat) -> Seq<char>
    decreases n,
{
    if n < 10 {
        seq![digit_char(n as int)]
    } else {
        dec_digits(n / 10).push(digit_char((n % 10) as int))
    }
}

/// `n` in decimal, left-padded with `'0'` up to `width` characters.
pub open spec fn dec_padded(n: nat, width: nat) -> Seq<char> {
    let d = dec_digits(n);
    if d.len() >= width {
        d
    } else {
        Seq::new((width - d.len()) as nat, |_i: int| '0') + d
    }
}

/// Appends one character to a string.
///
/// Wraps `String::push`, documented to append the given char to the end of
/// the string; the contract says exactly that.
#[verifier::external_body]
pub(crate) fn push_char(s: &mut String, c: char)
    ensures
        final(s)@ == old(s)@.push(c),
{
    s.push(c);
}

/// The character of the decimal digit `d`.
pub fn digit(d: u8) -> (c: char)
    requires
        d < 10,
    ensures
        c == digit_char(d as int),
{
    (48u8 + d) as char
}

/// Number of decimal digits of `n`.
pub fn dec_len(n: u128) -> (len: usize)
    ensures
        len as nat == dec_digits(n as nat).len(),
        1 <= len <= 39,
    decreases n,
{
    if n < 10 {
        1
    } else {
        let l = dec_len(n / 10);
        assert(n / 10 < n);
        proof {
            lemma_dec_len_bound(n as nat);
        }
        l + 1
    }
}

proof fn lemma_dec_len_bound(n: nat)
    ensures
        n <= u128::MAX ==> dec_digits(n).len() <= 39,
        dec_digits(n).len() >= 1,
    decreases n,
{
    if n >= 10 {
        lemma_dec_len_bound(n / 10);
        if n <= u128::MAX {
            lemma_dec_len_small(n);
        }
    }
}

proof fn lemma_dec_len_small(n: nat)
    requires
        n <= u128::MAX,
    ensures
        dec_digits(n).len() <= 39,
{
    assert(n < pow10(39)) by {
        reveal_with_fuel(pow10, 40);
    }
    lemma_dec_len_pow(n, 39);
}

/// If `n < 10^k` then `n` has at most `k` digits.
proof fn lemma_dec_len_pow(n: nat, k: nat)
    requires
        k >= 1,
        n < pow10(k),
    ensures
        dec_digits(n).len() <= k,
    decreases n,
{
    if n >= 10 {
        assert(k >= 2) by {
            if k == 1 {
                assert(pow10(1) == 10) by {
                    reveal_with_fuel(pow10, 2);
                }
            }
        }
        assert(n / 10 < pow10((k - 1) as nat)) by {
            assert(pow10(k) == 10 * pow10((k - 1) as nat));
        }
        lemma_dec_len_pow(n / 10, (k - 1) as nat);
    }
}

/// Ten to the power `k`.
pub open spec fn pow10(k: nat) -> nat
    decreases k,
{
    if k == 0 {
        1
    } else {
        10 * pow10((k - 1) as nat)
    }
}

/// Appends the decimal representation of `n`.
pub fn push_decimal(s: &mut String, n: u128)
    ensures
        final(s)@ == old(s)@ + dec_digits(n as nat),
    decreases n,
{
    if n >= 10 {
        push_decimal(s, n / 10);
    }
    push_char(s, digit((n % 10) as u8));
    proof {
        if n < 10 {
            assert(old(s)@ + dec_digits(n as nat) =~= old(s)@.push(digit_char(n as int)));
        } else {
            assert((old(s)@ + dec_digits((n / 10) as nat)).push(digit_char((n % 10) as int))
                =~= old(s)@ + dec_digits(n as nat));
        }
    }
}

/// Appends `n` in decimal, left-padded with zeros to at least `width` digits.
pub fn push_padded(s: &mut String, n: u128, width: usize)
    ensures
        final(s)@ == old(s)@ + dec_padded(n as nat, width as nat),
{
    let len = dec_len(n);
    let ghost start = s@;
    if len < width {
        let mut i: usize = len;
        while i < width
            invariant
                len <= i <= width,
                s@ == start + Seq::new((i - len) as nat, |_j: int| '0'),
            decreases width - i,
        {
            push_char(s, '0');
            i = i + 1;
            assert(s@ =~= start + Seq::new((i - len) as nat, |_j: int| '0'));
        }
    }
    let ghost mid = s@;
    push_decimal(s, n);
    assert(s@ =~= old(s)@ + dec_padded(n as nat, width as nat));
}

} // verus!
