//! Mathematical model of the ANSI escape sequences this library emits.
//!
//! Every operation of the library is a pure transform on character
//! sequences; the spec functions here say exactly which sequence each
//! operation produces.

use vstd::prelude::*;

verus! {

/// The escape character that opens every ANSI control sequence.
pub open spec fn esc() -> char {
    '\u{1b}'
}

/// The box-drawing character used for horizontal rules.
pub open spec fn rule_char() -> char {
    '\u{2500}'
}

/// The reset sequence `ESC[0m` that closes every styled or colored run.
pub open spec fn reset_seq() -> Seq<char> {
    seq![esc(), '[', '0', 'm']
}

/// The enumerated style effects. All but `Centered` wrap the text in a
/// fixed escape-code pair; `Centered` pads with spaces computed from the
/// terminal width instead.
#[derive(Clone, Copy, PartialEq, Eq, Structural, Debug)]
pub enum StyleKind {
    Bold,
    Dim,
    Italic,
    Underline,
    Blink,
    Reverse,
    Strikethrough,
    Clear,
    Centered,
}

/// The fixed numeric code (as a digit character) selecting each wrapping
/// style effect; `Clear` re-emits the reset code itself.
pub open spec fn style_code(k: StyleKind) -> char {
    match k {
        StyleKind::Bold => '1',
        StyleKind::Dim => '2',
        StyleKind::Italic => '3',
        StyleKind::Underline => '4',
        StyleKind::Blink => '5',
        StyleKind::Reverse => '7',
        StyleKind::Strikethrough => '9',
        StyleKind::Clear => '0',
        StyleKind::Centered => ' ',  // Centered emits no escape code at all
    }
}

/// The escape prefix `ESC[<code>m` that opens a wrapping style.
pub open spec fn style_prefix(k: StyleKind) -> Seq<char> {
    seq![esc(), '[', style_code(k), 'm']
}

/// `ESC[<code>m` + text + `ESC[0m`: the whole output of a wrapping style.
pub open spec fn wrap_seq(code: char, t: Seq<char>) -> Seq<char> {
    seq![esc(), '[', code, 'm'] + t + reset_seq()
}

/// The decimal numeral of `n`, most significant digit first, no sign and
/// no leading zeros (the numeral of zero is the single digit `0`).
pub open spec fn dec_seq(n: nat) -> Seq<char>
    decreases n,
{
    if n < 10 {
        seq![digit_char(n)]
    } else {
        dec_seq(n / 10).push(digit_char(n % 10))
    }
}

/// The digit character for a value below ten.
pub open spec fn digit_char(d: nat) -> char {
    if d == 0 {
        '0'
    } else if d == 1 {
        '1'
    } else if d == 2 {
        '2'
    } else if d == 3 {
        '3'
    } else if d == 4 {
        '4'
    } else if d == 5 {
        '5'
    } else if d == 6 {
        '6'
    } else if d == 7 {
        '7'
    } else if d == 8 {
        '8'
    } else {
        '9'
    }
}

/// Whether `c` is one of the ten decimal digit characters.
pub open spec fn is_digit_char(c: char) -> bool {
    c == '0' || c == '1' || c == '2' || c == '3' || c == '4' || c == '5' || c == '6' || c == '7'
        || c == '8' || c == '9'
}

/// The parameter list `38;2;<r>;<g>;<b>` selecting a 24-bit foreground
/// color, written with decimal numerals.
pub open spec fn rgb_params(r: nat, g: nat, b: nat) -> Seq<char> {
    seq!['3', '8', ';', '2', ';'] + dec_seq(r) + seq![';'] + dec_seq(g) + seq![';'] + dec_seq(b)
}

/// `ESC[38;2;r;g;bm` + text + `ESC[0m`: the whole output of a color
/// operation when color is applied.
pub open spec fn colored_seq(r: nat, g: nat, b: nat, t: Seq<char>) -> Seq<char> {
    seq![esc(), '['] + rgb_params(r, g, b) + seq!['m'] + t + reset_seq()
}

/// Whether a character counts as alphanumeric, exactly as
/// `char::is_alphanumeric` of std decides it (Unicode letter or number).
/// The classification is a fixed function of the character alone; a few
/// facts the library needs are stated on the trusted wrapper that
/// evaluates it.
pub uninterp spec fn is_alnum_char(c: char) -> bool;

/// How many characters of `t` are alphanumeric: the "visible length"
/// centering is computed from (escape bytes and punctuation are excluded).
pub open spec fn alnum_count(t: Seq<char>) -> nat
    decreases t.len(),
{
    if t.len() == 0 {
        0
    } else {
        alnum_count(t.drop_last()) + if is_alnum_char(t.last()) {
            1nat
        } else {
            0nat
        }
    }
}

/// The symmetric padding width for centering text whose alphanumeric
/// count is `visible` in a terminal of `cols` columns: half the free
/// space, truncated; zero when the text is wider than the terminal.
pub open spec fn pad_width(visible: nat, cols: nat) -> nat {
    if visible <= cols {
        ((cols - visible) / 2) as nat
    } else {
        0
    }
}

/// The output of centering: the same padding on both sides, the text
/// itself unmodified in between.
pub open spec fn centered_seq(t: Seq<char>, cols: nat) -> Seq<char> {
    spaces(pad_width(alnum_count(t), cols)) + t + spaces(pad_width(alnum_count(t), cols))
}

/// The whole output of [`crate::styles::apply_style`]: the wrapping
/// kinds emit their escape-code pair and ignore the width, `Centered`
/// pads with spaces computed from it.
pub open spec fn style_seq(k: StyleKind, t: Seq<char>, cols: nat) -> Seq<char> {
    match k {
        StyleKind::Centered => centered_seq(t, cols),
        _ => wrap_seq(style_code(k), t),
    }
}

/// A run of `n` space characters.
pub open spec fn spaces(n: nat) -> Seq<char> {
    Seq::new(n, |i: int| ' ')
}

/// A run of `n` horizontal-rule characters.
pub open spec fn rule_seq(n: nat) -> Seq<char> {
    Seq::new(n, |i: int| rule_char())
}

} // verus!
