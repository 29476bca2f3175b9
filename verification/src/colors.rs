//! 24-bit foreground coloring, honoring a no-color override.
//!
//! Every color operation takes a [`ColorMode`] that the caller resolves
//! from the `NO_COLOR` environment variable once per call (the library
//! itself does no environment read, so the tri-state rule is verified
//! and testable by injection).

use vstd::prelude::*;

use crate::ansi::colored_seq;
use crate::ansi::reset_seq;
use crate::ansi::rgb_params;
use crate::numerals::push_decimal;

verus! {

/// Whether a color operation applies its escape wrapping or returns the
/// text unchanged.
#[derive(Clone, Copy, PartialEq, Eq, Structural, Debug)]
pub enum ColorMode {
    /// Wrap the text in the color escape pair.
    Apply,
    /// Return the text unchanged, with no escape wrapping at all.
    Suppress,
}

/// The tri-state rule for the `NO_COLOR` environment variable: color is
/// suppressed only when the variable is set and empty. Unset, and — as
/// this library deliberately has it, against the common convention —
/// set to a non-empty value, both apply color.
pub open spec fn mode_spec(no_color: Option<Seq<char>>) -> ColorMode {
    match no_color {
        Option::None => ColorMode::Apply,
        Option::Some(v) => if v.len() == 0 {
            ColorMode::Suppress
        } else {
            ColorMode::Apply
        },
    }
}

/// What a color operation returns: the colored wrapping when the mode
/// applies color, the text itself when it suppresses it.
pub open spec fn rgb_seq(m: ColorMode, t: Seq<char>, r: nat, g: nat, b: nat) -> Seq<char> {
    match m {
        ColorMode::Apply => colored_seq(r, g, b, t),
        ColorMode::Suppress => t,
    }
}

/// Resolves the observed value of the `NO_COLOR` environment variable
/// (`None` when the variable is unset) to a color mode by the tri-state
/// rule of [`mode_spec`].
pub fn resolve_color_mode(no_color: Option<&str>) -> (m: ColorMode)
    ensures
        no_color is None ==> m == mode_spec(Option::<Seq<char>>::None),
        no_color matches Option::Some(v) ==> m == mode_spec(Option::Some(v@)),
{
    match no_color {
        Option::None => ColorMode::Apply,
        Option::Some(v) => if v.unicode_len() == 0 {
            ColorMode::Suppress
        } else {
            ColorMode::Apply
        },
    }
}

/// Wraps `text` in the 24-bit foreground color escape pair for the
/// channel values `r`, `g`, `b` — or returns it unchanged when `mode`
/// suppresses color. Channel values are interpolated as decimal numerals
/// with no range validation, as the escape syntax itself accepts any
/// numeral.
pub fn apply_rgb(text: &str, mode: ColorMode, r: u32, g: u32, b: u32) -> (res: String)
    ensures
        res@ == rgb_seq(mode, text@, r as nat, g as nat, b as nat),
{
    match mode {
        ColorMode::Suppress => text.to_owned(),
        ColorMode::Apply => {
            let mut out = String::new();
            proof {
                reveal_strlit("\u{1b}[38;2;");
                reveal_strlit(";");
                reveal_strlit("m");
                reveal_strlit("\u{1b}[0m");
            }
            out.append("\u{1b}[38;2;");
            push_decimal(&mut out, r);
            out.append(";");
            push_decimal(&mut out, g);
            out.append(";");
            push_decimal(&mut out, b);
            out.append("m");
            out.append(text);
            out.append("\u{1b}[0m");
            proof {
                assert(out@ =~= colored_seq(r as nat, g as nat, b as nat, text@));
            }
            out
        },
    }
}

/// With `NO_COLOR` unset, a color operation wraps the text in exactly
/// `ESC[38;2;r;g;bm` before and `ESC[0m` after.
pub proof fn lemma_rgb_when_unset(t: Seq<char>, r: nat, g: nat, b: nat)
    ensures
        rgb_seq(mode_spec(Option::None), t, r, g, b) == seq![crate::ansi::esc(), '['] + rgb_params(
            r,
            g,
            b,
        ) + seq!['m'] + t + reset_seq(),
{
}

/// With `NO_COLOR` set to the empty value, a color operation returns the
/// text unchanged: no escape wrapping at all, not even a reset.
pub proof fn lemma_rgb_when_set_empty(t: Seq<char>, r: nat, g: nat, b: nat)
    ensures
        rgb_seq(mode_spec(Option::Some(Seq::<char>::empty())), t, r, g, b) == t,
{
}

/// With `NO_COLOR` set to any non-empty value, a color operation
/// produces the same colored form as with the variable unset — the
/// deliberate (if unconventional) reading of the variable that this
/// library preserves.
pub proof fn lemma_rgb_when_set_nonempty(v: Seq<char>, t: Seq<char>, r: nat, g: nat, b: nat)
    requires
        v.len() > 0,
    ensures
        rgb_seq(mode_spec(Option::Some(v)), t, r, g, b) == rgb_seq(
            mode_spec(Option::None),
            t,
            r,
            g,
            b,
        ),
{
}

/// String-extension methods for coloring. Implemented for both borrowed
/// and owned strings; every named preset is fixed by its contract to the
/// exact output of `by_rgb` with its documented triple.
pub trait CynthiaColors: View<V = Seq<char>> + Sized {
    /// Color the string by an arbitrary RGB triple.
    fn by_rgb(self, mode: ColorMode, r: u32, g: u32, b: u32) -> (res: String)
        ensures
            res@ == rgb_seq(mode, self@, r as nat, g as nat, b as nat),
    ;

    /// Pure green, `(0, 255, 0)`.
    fn color_green(self, mode: ColorMode) -> (res: String)
        ensures
            res@ == rgb_seq(mode, self@, 0, 255, 0),
    ;

    /// Soft green for success messages, `(116, 204, 140)`.
    fn color_ok_green(self, mode: ColorMode) -> (res: String)
        ensures
            res@ == rgb_seq(mode, self@, 116, 204, 140),
    ;

    /// Lime, `(66, 245, 78)`.
    fn color_lime(self, mode: ColorMode) -> (res: String)
        ensures
            res@ == rgb_seq(mode, self@, 66, 245, 78),
    ;

    /// Pure red, `(255, 0, 0)`.
    fn color_red(self, mode: ColorMode) -> (res: String)
        ensures
            res@ == rgb_seq(mode, self@, 255, 0, 0),
    ;

    /// Dark red for error messages, `(184, 28, 74)`.
    fn color_error_red(self, mode: ColorMode) -> (res: String)
        ensures
            res@ == rgb_seq(mode, self@, 184, 28, 74),
    ;

    /// Bright red, `(237, 68, 62)`.
    fn color_bright_red(self, mode: ColorMode) -> (res: String)
        ensures
            res@ == rgb_seq(mode, self@, 237, 68, 62),
    ;

    /// Soft black, `(41, 40, 40)`.
    fn color_black(self, mode: ColorMode) -> (res: String)
        ensures
            res@ == rgb_seq(mode, self@, 41, 40, 40),
    ;

    /// True black, `(0, 0, 0)`.
    fn color_bright_black(self, mode: ColorMode) -> (res: String)
        ensures
            res@ == rgb_seq(mode, self@, 0, 0, 0),
    ;

    /// Soft white, `(240, 240, 240)`.
    fn color_white(self, mode: ColorMode) -> (res: String)
        ensures
            res@ == rgb_seq(mode, self@, 240, 240, 240),
    ;

    /// True white, `(255, 255, 255)`.
    fn color_bright_white(self, mode: ColorMode) -> (res: String)
        ensures
            res@ == rgb_seq(mode, self@, 255, 255, 255),
    ;

    /// Yellow, `(243, 201, 35)`.
    fn color_yellow(self, mode: ColorMode) -> (res: String)
        ensures
            res@ == rgb_seq(mode, self@, 243, 201, 35),
    ;

    /// Bright yellow, `(255, 234, 150)`.
    fn color_bright_yellow(self, mode: ColorMode) -> (res: String)
        ensures
            res@ == rgb_seq(mode, self@, 255, 234, 150),
    ;

    /// Cyan, `(16, 227, 227)`.
    fn color_cyan(self, mode: ColorMode) -> (res: String)
        ensures
            res@ == rgb_seq(mode, self@, 16, 227, 227),
    ;

    /// Bright cyan, `(0, 255, 255)`.
    fn color_bright_cyan(self, mode: ColorMode) -> (res: String)
        ensures
            res@ == rgb_seq(mode, self@, 0, 255, 255),
    ;

    /// Magenta, `(255, 0, 255)`.
    fn color_magenta(self, mode: ColorMode) -> (res: String)
        ensures
            res@ == rgb_seq(mode, self@, 255, 0, 255),
    ;

    /// Pink, `(243, 154, 245)`.
    fn color_pink(self, mode: ColorMode) -> (res: String)
        ensures
            res@ == rgb_seq(mode, self@, 243, 154, 245),
    ;

    /// Pure blue, `(0, 0, 255)`.
    fn color_blue(self, mode: ColorMode) -> (res: String)
        ensures
            res@ == rgb_seq(mode, self@, 0, 0, 255),
    ;

    /// Light blue, `(145, 220, 255)`.
    fn color_lightblue(self, mode: ColorMode) -> (res: String)
        ensures
            res@ == rgb_seq(mode, self@, 145, 220, 255),
    ;

    /// Orange, `(255, 165, 0)`.
    fn color_orange(self, mode: ColorMode) -> (res: String)
        ensures
            res@ == rgb_seq(mode, self@, 255, 165, 0),
    ;

    /// Bright orange, `(255, 157, 0)`.
    fn color_bright_orange(self, mode: ColorMode) -> (res: String)
        ensures
            res@ == rgb_seq(mode, self@, 255, 157, 0),
    ;

    /// Purple, `(97, 18, 181)`.
    fn color_purple(self, mode: ColorMode) -> (res: String)
        ensures
            res@ == rgb_seq(mode, self@, 97, 18, 181),
    ;

    /// Lilac, `(200, 162, 200)`.
    fn color_lilac(self, mode: ColorMode) -> (res: String)
        ensures
            res@ == rgb_seq(mode, self@, 200, 162, 200),
    ;
}

impl CynthiaColors for &str {
    fn by_rgb(self, mode: ColorMode, r: u32, g: u32, b: u32) -> (res: String) {
        apply_rgb(self, mode, r, g, b)
    }

    fn color_green(self, mode: ColorMode) -> (res: String) {
        apply_rgb(self, mode, 0, 255, 0)
    }

    fn color_ok_green(self, mode: ColorMode) -> (res: String) {
        apply_rgb(self, mode, 116, 204, 140)
    }

    fn color_lime(self, mode: ColorMode) -> (res: String) {
        apply_rgb(self, mode, 66, 245, 78)
    }

    fn color_red(self, mode: ColorMode) -> (res: String) {
        apply_rgb(self, mode, 255, 0, 0)
    }

    fn color_error_red(self, mode: ColorMode) -> (res: String) {
        apply_rgb(self, mode, 184, 28, 74)
    }

    fn color_bright_red(self, mode: ColorMode) -> (res: String) {
        apply_rgb(self, mode, 237, 68, 62)
    }

    fn color_black(self, mode: ColorMode) -> (res: String) {
        apply_rgb(self, mode, 41, 40, 40)
    }

    fn color_bright_black(self, mode: ColorMode) -> (res: String) {
        apply_rgb(self, mode, 0, 0, 0)
    }

    fn color_white(self, mode: ColorMode) -> (res: String) {
        apply_rgb(self, mode, 240, 240, 240)
    }

    fn color_bright_white(self, mode: ColorMode) -> (res: String) {
        apply_rgb(self, mode, 255, 255, 255)
    }

    fn color_yellow(self, mode: ColorMode) -> (res: String) {
        apply_rgb(self, mode, 243, 201, 35)
    }

    fn color_bright_yellow(self, mode: ColorMode) -> (res: String) {
        apply_rgb(self, mode, 255, 234, 150)
    }

    fn color_cyan(self, mode: ColorMode) -> (res: String) {
        apply_rgb(self, mode, 16, 227, 227)
    }

    fn color_bright_cyan(self, mode: ColorMode) -> (res: String) {
        apply_rgb(self, mode, 0, 255, 255)
    }

    fn color_magenta(self, mode: ColorMode) -> (res: String) {
        apply_rgb(self, mode, 255, 0, 255)
    }

    fn color_pink(self, mode: ColorMode) -> (res: String) {
        apply_rgb(self, mode, 243, 154, 245)
    }

    fn color_blue(self, mode: ColorMode) -> (res: String) {
        apply_rgb(self, mode, 0, 0, 255)
    }

    fn color_lightblue(self, mode: ColorMode) -> (res: String) {
        apply_rgb(self, mode, 145, 220, 255)
    }

    fn color_orange(self, mode: ColorMode) -> (res: String) {
        apply_rgb(self, mode, 255, 165, 0)
    }

    fn color_bright_orange(self, mode: ColorMode) -> (res: String) {
        apply_rgb(self, mode, 255, 157, 0)
    }

    fn color_purple(self, mode: ColorMode) -> (res: String) {
        apply_rgb(self, mode, 97, 18, 181)
    }

    fn color_lilac(self, mode: ColorMode) -> (res: String) {
        apply_rgb(self, mode, 200, 162, 200)
    }
}

impl CynthiaColors for String {
    fn by_rgb(self, mode: ColorMode, r: u32, g: u32, b: u32) -> (res: String) {
        apply_rgb(self.as_str(), mode, r, g, b)
    }

    fn color_green(self, mode: ColorMode) -> (res: String) {
        apply_rgb(self.as_str(), mode, 0, 255, 0)
    }

    fn color_ok_green(self, mode: ColorMode) -> (res: String) {
        apply_rgb(self.as_str(), mode, 116, 204, 140)
    }

    fn color_lime(self, mode: ColorMode) -> (res: String) {
        apply_rgb(self.as_str(), mode, 66, 245, 78)
    }

    fn color_red(self, mode: ColorMode) -> (res: String) {
        apply_rgb(self.as_str(), mode, 255, 0, 0)
    }

    fn color_error_red(self, mode: ColorMode) -> (res: String) {
        apply_rgb(self.as_str(), mode, 184, 28, 74)
    }

    fn color_bright_red(self, mode: ColorMode) -> (res: String) {
        apply_rgb(self.as_str(), mode, 237, 68, 62)
    }

    fn color_black(self, mode: ColorMode) -> (res: String) {
        apply_rgb(self.as_str(), mode, 41, 40, 40)
    }

    fn color_bright_black(self, mode: ColorMode) -> (res: String) {
        apply_rgb(self.as_str(), mode, 0, 0, 0)
    }

    fn color_white(self, mode: ColorMode) -> (res: String) {
        apply_rgb(self.as_str(), mode, 240, 240, 240)
    }

    fn color_bright_white(self, mode: ColorMode) -> (res: String) {
        apply_rgb(self.as_str(), mode, 255, 255, 255)
    }

    fn color_yellow(self, mode: ColorMode) -> (res: String) {
        apply_rgb(self.as_str(), mode, 243, 201, 35)
    }

    fn color_bright_yellow(self, mode: ColorMode) -> (res: String) {
        apply_rgb(self.as_str(), mode, 255, 234, 150)
    }

    fn color_cyan(self, mode: ColorMode) -> (res: String) {
        apply_rgb(self.as_str(), mode, 16, 227, 227)
    }

    fn color_bright_cyan(self, mode: ColorMode) -> (res: String) {
        apply_rgb(self.as_str(), mode, 0, 255, 255)
    }

    fn color_magenta(self, mode: ColorMode) -> (res: String) {
        apply_rgb(self.as_str(), mode, 255, 0, 255)
    }

    fn color_pink(self, mode: ColorMode) -> (res: String) {
        apply_rgb(self.as_str(), mode, 243, 154, 245)
    }

    fn color_blue(self, mode: ColorMode) -> (res: String) {
        apply_rgb(self.as_str(), mode, 0, 0, 255)
    }

    fn color_lightblue(self, mode: ColorMode) -> (res: String) {
        apply_rgb(self.as_str(), mode, 145, 220, 255)
    }

    fn color_orange(self, mode: ColorMode) -> (res: String) {
        apply_rgb(self.as_str(), mode, 255, 165, 0)
    }

    fn color_bright_orange(self, mode: ColorMode) -> (res: String) {
        apply_rgb(self.as_str(), mode, 255, 157, 0)
    }

    fn color_purple(self, mode: ColorMode) -> (res: String) {
        apply_rgb(self.as_str(), mode, 97, 18, 181)
    }

    fn color_lilac(self, mode: ColorMode) -> (res: String) {
        apply_rgb(self.as_str(), mode, 200, 162, 200)
    }
}

} // verus!
