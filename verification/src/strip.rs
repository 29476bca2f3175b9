//! Stripping ANSI escape sequences, and the round-trip guarantee: the
//! styled and colored wrappings this library emits strip back to the
//! text they were given.
//!
//! Stripping is modeled as a three-state scanner: plain text is kept;
//! `ESC` followed by `[` opens a control sequence that is dropped up to
//! and including its terminating `m`; a lone `ESC` and the character
//! after it are dropped as well.

use vstd::prelude::*;

use crate::ansi::colored_seq;
use crate::ansi::esc;
use crate::ansi::is_digit_char;
use crate::ansi::reset_seq;
use crate::ansi::rgb_params;
use crate::ansi::wrap_seq;
use crate::numerals::lemma_dec_seq_digits;

verus! {

/// The scanner's position: in plain text, just after an escape
/// character, or inside a control sequence awaiting its final `m`.
#[derive(Clone, Copy, PartialEq, Eq, Structural, Debug)]
pub enum StripState {
    Plain,
    AfterEsc,
    InCode,
}

/// What remains of `s` after stripping, starting in state `st`.
pub open spec fn strip_from(st: StripState, s: Seq<char>) -> Seq<char>
    decreases s.len(),
{
    if s.len() == 0 {
        Seq::empty()
    } else {
        let c = s[0];
        let tail = s.drop_first();
        match st {
            StripState::Plain => if c == esc() {
                strip_from(StripState::AfterEsc, tail)
            } else {
                seq![c] + strip_from(StripState::Plain, tail)
            },
            StripState::AfterEsc => if c == '[' {
                strip_from(StripState::InCode, tail)
            } else {
                strip_from(StripState::Plain, tail)
            },
            StripState::InCode => if c == 'm' {
                strip_from(StripState::Plain, tail)
            } else {
                strip_from(StripState::InCode, tail)
            },
        }
    }
}

/// What remains of `s` after all `ESC[...m` sequences are removed.
pub open spec fn strip_spec(s: Seq<char>) -> Seq<char> {
    strip_from(StripState::Plain, s)
}

/// Whether `s` contains no escape character at all.
pub open spec fn esc_free(s: Seq<char>) -> bool {
    forall|i: int| 0 <= i < s.len() ==> s[i] != esc()
}

/// Relies on `String::push` of std: appends the character to the string.
#[verifier::external_body]
fn push_char(s: &mut String, c: char)
    ensures
        final(s)@ == old(s)@ + seq![c],
{
    s.push(c);
}

/// Removes every ANSI `ESC[...m` sequence from `text`.
pub fn strip_ansi(text: &str) -> (r: String)
    ensures
        r@ == strip_spec(text@),
{
    let len = text.unicode_len();
    let mut out = String::new();
    let mut st = StripState::Plain;
    let mut i: usize = 0;
    proof {
        assert(text@.subrange(0, len as int) =~= text@);
        assert(Seq::<char>::empty() + strip_from(st, text@.subrange(0, len as int)) =~= strip_from(
            st,
            text@.subrange(0, len as int),
        ));
    }
    while i < len
        invariant
            i <= len,
            len == text@.len(),
            strip_spec(text@) == out@ + strip_from(st, text@.subrange(i as int, len as int)),
        decreases len - i,
    {
        let ghost before = text@.subrange(i as int, len as int);
        proof {
            assert(before[0] == text@[i as int]);
            assert(before.drop_first() =~= text@.subrange(i as int + 1, len as int));
        }
        let c = text.get_char(i);
        match st {
            StripState::Plain => {
                if c == '\u{1b}' {
                    st = StripState::AfterEsc;
                } else {
                    push_char(&mut out, c);
                }
            },
            StripState::AfterEsc => {
                if c == '[' {
                    st = StripState::InCode;
                } else {
                    st = StripState::Plain;
                }
            },
            StripState::InCode => {
                if c == 'm' {
                    st = StripState::Plain;
                }
            },
        }
        i = i + 1;
        proof {
            assert(strip_spec(text@) == out@ + strip_from(
                st,
                text@.subrange(i as int, len as int),
            ));
        }
    }
    proof {
        assert(text@.subrange(len as int, len as int) =~= Seq::<char>::empty());
        assert(out@ + strip_from(st, Seq::<char>::empty()) =~= out@);
    }
    out
}

/// Stripping passes escape-free text through unchanged, character by
/// character, whatever follows it.
proof fn lemma_strip_plain_prefix(s: Seq<char>, rest: Seq<char>)
    requires
        esc_free(s),
    ensures
        strip_from(StripState::Plain, s + rest) == s + strip_from(StripState::Plain, rest),
    decreases s.len(),
{
    if s.len() == 0 {
        assert(s + rest =~= rest);
        assert(s + strip_from(StripState::Plain, rest) =~= strip_from(StripState::Plain, rest));
    } else {
        assert((s + rest)[0] == s[0]);
        assert((s + rest).drop_first() =~= s.drop_first() + rest);
        assert(esc_free(s.drop_first())) by {
            assert(forall|i: int|
                0 <= i < s.drop_first().len() ==> #[trigger] s.drop_first()[i] == s[i + 1]);
        }
        lemma_strip_plain_prefix(s.drop_first(), rest);
        assert(seq![s[0]] + (s.drop_first() + strip_from(StripState::Plain, rest)) =~= s
            + strip_from(StripState::Plain, rest));
    }
}

/// Inside a control sequence, every character short of the closing `m`
/// is dropped.
proof fn lemma_strip_code_skip(body: Seq<char>, rest: Seq<char>)
    requires
        forall|i: int| 0 <= i < body.len() ==> body[i] != 'm',
    ensures
        strip_from(StripState::InCode, body + rest) == strip_from(StripState::InCode, rest),
    decreases body.len(),
{
    if body.len() == 0 {
        assert(body + rest =~= rest);
    } else {
        assert((body + rest)[0] == body[0]);
        assert((body + rest).drop_first() =~= body.drop_first() + rest);
        assert(forall|i: int|
            0 <= i < body.drop_first().len() ==> #[trigger] body.drop_first()[i] == body[i + 1]);
        lemma_strip_code_skip(body.drop_first(), rest);
    }
}

/// A whole control sequence `ESC[<body>m` is removed without a trace,
/// provided its body does not itself contain the terminator `m`.
proof fn lemma_strip_control_seq(body: Seq<char>, rest: Seq<char>)
    requires
        forall|i: int| 0 <= i < body.len() ==> body[i] != 'm',
    ensures
        strip_from(StripState::Plain, seq![esc(), '['] + body + seq!['m'] + rest) == strip_from(
            StripState::Plain,
            rest,
        ),
{
    let whole = seq![esc(), '['] + body + seq!['m'] + rest;
    let s1 = seq!['['] + body + seq!['m'] + rest;
    let s3 = seq!['m'] + rest;
    assert(whole[0] == esc());
    assert(whole.drop_first() =~= s1);
    assert(strip_from(StripState::Plain, whole) == strip_from(StripState::AfterEsc, s1));
    assert(s1[0] == '[');
    assert(s1.drop_first() =~= body + s3);
    assert(strip_from(StripState::AfterEsc, s1) == strip_from(StripState::InCode, body + s3));
    lemma_strip_code_skip(body, s3);
    assert(s3[0] == 'm');
    assert(s3.drop_first() =~= rest);
    assert(strip_from(StripState::InCode, s3) == strip_from(StripState::Plain, rest));
}

/// Stripping text that holds no escape character returns it unchanged.
pub proof fn lemma_strip_plain_text(t: Seq<char>)
    requires
        esc_free(t),
    ensures
        strip_spec(t) == t,
{
    lemma_strip_plain_prefix(t, Seq::empty());
    assert(t + Seq::<char>::empty() =~= t);
    assert(t + strip_from(StripState::Plain, Seq::<char>::empty()) =~= t);
}

/// Round trip for the wrapping styles: stripping `ESC[<code>m` + text +
/// `ESC[0m` returns the text, for any single-character code that is not
/// the terminator itself and any text free of escape characters.
pub proof fn lemma_strip_wrapped(code: char, t: Seq<char>)
    requires
        code != 'm',
        esc_free(t),
    ensures
        strip_spec(wrap_seq(code, t)) == t,
{
    assert(wrap_seq(code, t) =~= seq![esc(), '['] + seq![code] + seq!['m'] + (t + reset_seq()));
    lemma_strip_control_seq(seq![code], t + reset_seq());
    lemma_strip_plain_prefix(t, reset_seq());
    assert(reset_seq() =~= seq![esc(), '['] + seq!['0'] + seq!['m'] + Seq::<char>::empty());
    lemma_strip_control_seq(seq!['0'], Seq::empty());
    assert(t + strip_from(StripState::Plain, Seq::<char>::empty()) =~= t);
}

/// Round trip for coloring: stripping `ESC[38;2;r;g;bm` + text +
/// `ESC[0m` returns the text, for any channel values and any text free
/// of escape characters.
pub proof fn lemma_strip_colored(r: nat, g: nat, b: nat, t: Seq<char>)
    requires
        esc_free(t),
    ensures
        strip_spec(colored_seq(r, g, b, t)) == t,
{
    let body = rgb_params(r, g, b);
    lemma_dec_seq_digits(r);
    lemma_dec_seq_digits(g);
    lemma_dec_seq_digits(b);
    assert(forall|c: char| is_digit_char(c) ==> c != 'm');
    assert(forall|i: int| 0 <= i < body.len() ==> body[i] != 'm');
    assert(colored_seq(r, g, b, t) =~= seq![esc(), '['] + body + seq!['m'] + (t + reset_seq()));
    lemma_strip_control_seq(body, t + reset_seq());
    lemma_strip_plain_prefix(t, reset_seq());
    assert(reset_seq() =~= seq![esc(), '['] + seq!['0'] + seq!['m'] + Seq::<char>::empty());
    lemma_strip_control_seq(seq!['0'], Seq::empty());
    assert(t + strip_from(StripState::Plain, Seq::<char>::empty()) =~= t);
}

} // verus!
