//! Verified decimal formatting: the executable counterpart of
//! [`crate::ansi::dec_seq`], used to interpolate color channel values
//! into escape sequences.

use vstd::prelude::*;

use crate::ansi::dec_seq;
use crate::ansi::digit_char;
use crate::ansi::is_digit_char;

verus! {

/// Appends the decimal numeral of `n` to `s`.
pub fn push_decimal(s: &mut String, n: u32)
    ensures
        final(s)@ == old(s)@ + dec_seq(n as nat),
    decreases n,
{
    if n >= 10 {
        push_decimal(s, n / 10);
    }
    push_digit(s, (n % 10) as u8);
    proof {
        if n >= 10 {
            assert(old(s)@ + dec_seq((n / 10) as nat) + seq![digit_char((n % 10) as nat)]
                =~= old(s)@ + dec_seq(n as nat));
        } else {
            assert(old(s)@ + seq![digit_char(n as nat)] =~= old(s)@ + dec_seq(n as nat));
        }
    }
}

/// The decimal numeral of `n` as a fresh string.
pub fn decimal(n: u32) -> (r: String)
    ensures
        r@ == dec_seq(n as nat),
{
    let mut s = String::new();
    push_decimal(&mut s, n);
    proof {
        assert(Seq::<char>::empty() + dec_seq(n as nat) =~= dec_seq(n as nat));
    }
    s
}

/// Appends the digit character of a value below ten.
fn push_digit(s: &mut String, d: u8)
    requires
        d < 10,
    ensures
        final(s)@ == old(s)@ + seq![digit_char(d as nat)],
{
    proof {
        reveal_strlit("0");
        reveal_strlit("1");
        reveal_strlit("2");
        reveal_strlit("3");
        reveal_strlit("4");
        reveal_strlit("5");
        reveal_strlit("6");
        reveal_strlit("7");
        reveal_strlit("8");
        reveal_strlit("9");
    }
    if d == 0 {
        s.append("0");
    } else if d == 1 {
        s.append("1");
    } else if d == 2 {
        s.append("2");
    } else if d == 3 {
        s.append("3");
    } else if d == 4 {
        s.append("4");
    } else if d == 5 {
        s.append("5");
    } else if d == 6 {
        s.append("6");
    } else if d == 7 {
        s.append("7");
    } else if d == 8 {
        s.append("8");
    } else {
        s.append("9");
    }
}

/// Every character of a decimal numeral is a digit; in particular none is
/// the terminator `m` or the escape character, which the stripping proofs
/// rely on.
pub proof fn lemma_dec_seq_digits(n: nat)
    ensures
        forall|i: int| 0 <= i < dec_seq(n).len() ==> is_digit_char(#[trigger] dec_seq(n)[i]),
    decreases n,
{
    if n < 10 {
        assert(is_digit_char(dec_seq(n)[0]));
    } else {
        lemma_dec_seq_digits(n / 10);
        assert forall|i: int| 0 <= i < dec_seq(n).len() implies is_digit_char(
            #[trigger] dec_seq(n)[i],
        ) by {
            if i < dec_seq(n).len() - 1 {
                assert(dec_seq(n)[i] == dec_seq(n / 10)[i]);
            } else {
                assert(dec_seq(n)[i] == digit_char(n % 10));
            }
        }
    }
}

} // verus!
