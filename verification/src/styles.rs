//! Style effects: wrapping text in fixed ANSI escape-code pairs, and
//! centering it with spaces for a terminal of a given width.

use vstd::prelude::*;

use crate::ansi::StyleKind;
use crate::ansi::alnum_count;
use crate::ansi::centered_seq;
use crate::ansi::is_alnum_char;
use crate::ansi::pad_width;
use crate::ansi::reset_seq;
use crate::ansi::spaces;
use crate::ansi::style_code;
use crate::ansi::style_prefix;
use crate::ansi::style_seq;
use crate::ansi::wrap_seq;

verus! {

/// Relies on `char::is_alphanumeric` of std: true exactly on Unicode
/// letters and numbers. The classification is a fixed function of the
/// character alone, which [`is_alnum_char`] names.
#[verifier::external_body]
fn is_alnum(c: char) -> (r: bool)
    ensures
        r == is_alnum_char(c),
{
    c.is_alphanumeric()
}

/// Counts the alphanumeric characters of `text`: the visible length that
/// centering is computed from.
pub fn alnum_len(text: &str) -> (n: usize)
    ensures
        n == alnum_count(text@),
{
    let len = text.unicode_len();
    let mut n: usize = 0;
    let mut i: usize = 0;
    while i < len
        invariant
            i <= len,
            len == text@.len(),
            n <= i,
            n == alnum_count(text@.subrange(0, i as int)),
        decreases len - i,
    {
        let c = text.get_char(i);
        if is_alnum(c) {
            n = n + 1;
        }
        i = i + 1;
        proof {
            let sub = text@.subrange(0, i as int);
            assert(sub.drop_last() =~= text@.subrange(0, i - 1));
            assert(sub.last() == text@[i - 1]);
        }
    }
    proof {
        assert(text@.subrange(0, len as int) =~= text@);
    }
    n
}

/// Appends `n` space characters to `s`.
fn push_spaces(s: &mut String, n: usize)
    ensures
        final(s)@ == old(s)@ + spaces(n as nat),
{
    proof {
        assert(old(s)@ + spaces(0) =~= old(s)@);
    }
    let mut j: usize = 0;
    while j < n
        invariant
            j <= n,
            s@ == old(s)@ + spaces(j as nat),
        decreases n - j,
    {
        proof {
            reveal_strlit(" ");
        }
        s.append(" ");
        j = j + 1;
        proof {
            assert(old(s)@ + spaces((j - 1) as nat) + " "@ =~= old(s)@ + spaces(j as nat));
        }
    }
}

/// Centers `text` for a terminal of `cols` columns: the same number of
/// spaces on both sides, half the free space each (truncated), where the
/// free space is measured against the alphanumeric count alone. Text
/// wider than the terminal is returned with no padding.
pub fn center_of_width(text: &str, cols: u16) -> (r: String)
    ensures
        r@ == centered_seq(text@, cols as nat),
{
    let visible = alnum_len(text);
    let pad: usize = if visible <= cols as usize {
        (cols as usize - visible) / 2
    } else {
        0
    };
    assert(pad == pad_width(alnum_count(text@), cols as nat));
    let mut out = String::new();
    push_spaces(&mut out, pad);
    out.append(text);
    push_spaces(&mut out, pad);
    proof {
        assert(out@ =~= centered_seq(text@, cols as nat));
    }
    out
}

/// Wraps `text` in `prefix` and the reset sequence.
fn wrap_between(prefix: &str, text: &str) -> (r: String)
    ensures
        r@ == prefix@ + text@ + reset_seq(),
{
    let mut out = String::new();
    out.append(prefix);
    out.append(text);
    proof {
        reveal_strlit("\u{1b}[0m");
        assert("\u{1b}[0m"@ =~= reset_seq());
    }
    out.append("\u{1b}[0m");
    proof {
        assert(out@ =~= prefix@ + text@ + reset_seq());
    }
    out
}

/// Wraps `text` in the escape-code pair of a wrapping style kind:
/// `ESC[<code>m` before, `ESC[0m` after.
pub fn wrap_style(text: &str, kind: StyleKind) -> (r: String)
    requires
        kind != StyleKind::Centered,
    ensures
        r@ == wrap_seq(style_code(kind), text@),
{
    let prefix: &str = match kind {
        StyleKind::Bold => "\u{1b}[1m",
        StyleKind::Dim => "\u{1b}[2m",
        StyleKind::Italic => "\u{1b}[3m",
        StyleKind::Underline => "\u{1b}[4m",
        StyleKind::Blink => "\u{1b}[5m",
        StyleKind::Reverse => "\u{1b}[7m",
        StyleKind::Strikethrough => "\u{1b}[9m",
        StyleKind::Clear => "\u{1b}[0m",
        StyleKind::Centered => "",
    };
    proof {
        reveal_strlit("\u{1b}[1m");
        reveal_strlit("\u{1b}[2m");
        reveal_strlit("\u{1b}[3m");
        reveal_strlit("\u{1b}[4m");
        reveal_strlit("\u{1b}[5m");
        reveal_strlit("\u{1b}[7m");
        reveal_strlit("\u{1b}[9m");
        reveal_strlit("\u{1b}[0m");
        assert(prefix@ =~= style_prefix(kind));
    }
    wrap_between(prefix, text)
}

/// Applies a style effect to `text`. All kinds but `Centered` wrap the
/// text in their fixed escape-code pair and ignore `cols`; `Centered`
/// pads with spaces computed from `cols`.
pub fn apply_style(text: &str, kind: StyleKind, cols: u16) -> (r: String)
    ensures
        r@ == style_seq(kind, text@, cols as nat),
{
    match kind {
        StyleKind::Centered => center_of_width(text, cols),
        _ => wrap_style(text, kind),
    }
}

/// The frame of every wrapping style except the reset-only `Clear`: the
/// output begins with the four-character escape prefix of the kind, ends
/// with the four-character reset suffix, and holds the text unmodified
/// in between.
pub proof fn lemma_style_frame(k: StyleKind, t: Seq<char>)
    requires
        k != StyleKind::Centered,
        k != StyleKind::Clear,
    ensures
        wrap_seq(style_code(k), t).len() == t.len() + 8,
        wrap_seq(style_code(k), t).subrange(0, 4) == style_prefix(k),
        wrap_seq(style_code(k), t).subrange(4, (t.len() + 4) as int) == t,
        wrap_seq(style_code(k), t).subrange((t.len() + 4) as int, (t.len() + 8) as int) == reset_seq(),
{
    assert(wrap_seq(style_code(k), t).subrange(0, 4) =~= style_prefix(k));
    assert(wrap_seq(style_code(k), t).subrange(4, (t.len() + 4) as int) =~= t);
    assert(wrap_seq(style_code(k), t).subrange((t.len() + 4) as int, (t.len() + 8) as int) =~= reset_seq());
}

/// The `Clear` style emits the reset sequence on both sides of the text:
/// `ESC[0m` + text + `ESC[0m` exactly.
pub proof fn lemma_clear_resets_both_sides(t: Seq<char>)
    ensures
        wrap_seq(style_code(StyleKind::Clear), t) == reset_seq() + t + reset_seq(),
{
    assert(wrap_seq(style_code(StyleKind::Clear), t) =~= reset_seq() + t + reset_seq());
}

/// The shape of centering: with alphanumeric count `v` at most `cols`,
/// the output carries `(cols - v) / 2` spaces on each side of the
/// unmodified text; text wider than the terminal gets no padding at all.
pub proof fn lemma_centered_pads(t: Seq<char>, cols: nat)
    ensures
        centered_seq(t, cols).len() == t.len() + 2 * pad_width(alnum_count(t), cols),
        centered_seq(t, cols).subrange(0, pad_width(alnum_count(t), cols) as int) == spaces(
            pad_width(alnum_count(t), cols),
        ),
        centered_seq(t, cols).subrange(
            pad_width(alnum_count(t), cols) as int,
            (pad_width(alnum_count(t), cols) + t.len()) as int,
        ) == t,
        centered_seq(t, cols).subrange(
            (pad_width(alnum_count(t), cols) + t.len()) as int,
            (pad_width(alnum_count(t), cols) + t.len() + pad_width(alnum_count(t), cols)) as int,
        ) == spaces(pad_width(alnum_count(t), cols)),
        alnum_count(t) <= cols ==> pad_width(alnum_count(t), cols) == (cols - alnum_count(t)) / 2,
        alnum_count(t) > cols ==> centered_seq(t, cols) == t,
{
    let pad = pad_width(alnum_count(t), cols);
    assert(centered_seq(t, cols).subrange(0, pad as int) =~= spaces(pad));
    assert(centered_seq(t, cols).subrange(pad as int, (pad + t.len()) as int) =~= t);
    assert(centered_seq(t, cols).subrange((pad + t.len()) as int, (pad + t.len() + pad) as int) =~= spaces(pad));
    if alnum_count(t) > cols {
        assert(centered_seq(t, cols) =~= t);
    }
}

/// String-extension methods for the style effects. Implemented for both
/// borrowed and owned strings; the shared contracts make the two
/// implementations agree on every output.
pub trait CynthiaStyles: View<V = Seq<char>> + Sized {
    /// Display the string with a bold effect.
    fn style_bold(self) -> (r: String)
        ensures
            r@ == wrap_seq('1', self@),
    ;

    /// Display the string with an italic effect.
    fn style_italic(self) -> (r: String)
        ensures
            r@ == wrap_seq('3', self@),
    ;

    /// Display the string with an underline effect.
    fn style_underline(self) -> (r: String)
        ensures
            r@ == wrap_seq('4', self@),
    ;

    /// Display the string with a strikethrough effect.
    fn style_strikethrough(self) -> (r: String)
        ensures
            r@ == wrap_seq('9', self@),
    ;

    /// Display the string with a dim effect.
    fn style_dim(self) -> (r: String)
        ensures
            r@ == wrap_seq('2', self@),
    ;

    /// Display the string with a blinking effect.
    fn style_blink(self) -> (r: String)
        ensures
            r@ == wrap_seq('5', self@),
    ;

    /// Invert the colors of the string.
    fn style_reverse(self) -> (r: String)
        ensures
            r@ == wrap_seq('7', self@),
    ;

    /// Attempts to center the string for a terminal of `cols` columns.
    /// This requires a new line.
    fn style_centered(self, cols: u16) -> (r: String)
        ensures
            r@ == centered_seq(self@, cols as nat),
    ;

    /// Clears all styles: a reset both before and after the string.
    fn style_clear(self) -> (r: String)
        ensures
            r@ == wrap_seq('0', self@),
    ;
}

impl CynthiaStyles for &str {
    fn style_bold(self) -> (r: String) {
        wrap_style(self, StyleKind::Bold)
    }

    fn style_italic(self) -> (r: String) {
        wrap_style(self, StyleKind::Italic)
    }

    fn style_underline(self) -> (r: String) {
        wrap_style(self, StyleKind::Underline)
    }

    fn style_strikethrough(self) -> (r: String) {
        wrap_style(self, StyleKind::Strikethrough)
    }

    fn style_dim(self) -> (r: String) {
        wrap_style(self, StyleKind::Dim)
    }

    fn style_blink(self) -> (r: String) {
        wrap_style(self, StyleKind::Blink)
    }

    fn style_reverse(self) -> (r: String) {
        wrap_style(self, StyleKind::Reverse)
    }

    fn style_centered(self, cols: u16) -> (r: String) {
        center_of_width(self, cols)
    }

    fn style_clear(self) -> (r: String) {
        wrap_style(self, StyleKind::Clear)
    }
}

impl CynthiaStyles for String {
    fn style_bold(self) -> (r: String) {
        wrap_style(self.as_str(), StyleKind::Bold)
    }

    fn style_italic(self) -> (r: String) {
        wrap_style(self.as_str(), StyleKind::Italic)
    }

    fn style_underline(self) -> (r: String) {
        wrap_style(self.as_str(), StyleKind::Underline)
    }

    fn style_strikethrough(self) -> (r: String) {
        wrap_style(self.as_str(), StyleKind::Strikethrough)
    }

    fn style_dim(self) -> (r: String) {
        wrap_style(self.as_str(), StyleKind::Dim)
    }

    fn style_blink(self) -> (r: String) {
        wrap_style(self.as_str(), StyleKind::Blink)
    }

    fn style_reverse(self) -> (r: String) {
        wrap_style(self.as_str(), StyleKind::Reverse)
    }

    fn style_centered(self, cols: u16) -> (r: String) {
        center_of_width(self.as_str(), cols)
    }

    fn style_clear(self) -> (r: String) {
        wrap_style(self.as_str(), StyleKind::Clear)
    }
}

} // verus!
