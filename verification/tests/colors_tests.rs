use cynthia_term::ColorMode;
use cynthia_term::CynthiaColors;
use cynthia_term::colors::apply_rgb;
use cynthia_term::colors::resolve_color_mode;
use cynthia_term::numerals::decimal;

#[test]
fn rgb_wraps_with_the_color_escape_pair() {
    assert_eq!(
        "hi".by_rgb(ColorMode::Apply, 255, 0, 127),
        "\u{1b}[38;2;255;0;127mhi\u{1b}[0m"
    );
}

#[test]
fn suppressed_rgb_returns_the_text_unchanged() {
    assert_eq!("hi".by_rgb(ColorMode::Suppress, 255, 0, 127), "hi");
    assert_eq!("".by_rgb(ColorMode::Suppress, 1, 2, 3), "");
}

#[test]
fn unset_variable_applies_color() {
    let mode = resolve_color_mode(None);
    assert_eq!(mode, ColorMode::Apply);
    assert_eq!(
        "t".by_rgb(mode, 1, 2, 3),
        "\u{1b}[38;2;1;2;3mt\u{1b}[0m"
    );
}

#[test]
fn empty_variable_suppresses_color() {
    let mode = resolve_color_mode(Some(""));
    assert_eq!(mode, ColorMode::Suppress);
    assert_eq!("t".by_rgb(mode, 1, 2, 3), "t");
}

#[test]
fn nonempty_variable_still_applies_color() {
    // the deliberate reading this library preserves: only an empty value
    // suppresses, any other value colors exactly as an unset variable does
    let mode = resolve_color_mode(Some("1"));
    assert_eq!(mode, ColorMode::Apply);
    assert_eq!(
        "t".by_rgb(mode, 1, 2, 3),
        "t".by_rgb(resolve_color_mode(None), 1, 2, 3)
    );
}

#[test]
fn presets_match_their_documented_triples() {
    let m = ColorMode::Apply;
    assert_eq!("t".color_green(m), "t".by_rgb(m, 0, 255, 0));
    assert_eq!("t".color_ok_green(m), "t".by_rgb(m, 116, 204, 140));
    assert_eq!("t".color_lime(m), "t".by_rgb(m, 66, 245, 78));
    assert_eq!("t".color_red(m), "t".by_rgb(m, 255, 0, 0));
    assert_eq!("t".color_error_red(m), "t".by_rgb(m, 184, 28, 74));
    assert_eq!("t".color_bright_red(m), "t".by_rgb(m, 237, 68, 62));
    assert_eq!("t".color_black(m), "t".by_rgb(m, 41, 40, 40));
    assert_eq!("t".color_bright_black(m), "t".by_rgb(m, 0, 0, 0));
    assert_eq!("t".color_white(m), "t".by_rgb(m, 240, 240, 240));
    assert_eq!("t".color_bright_white(m), "t".by_rgb(m, 255, 255, 255));
    assert_eq!("t".color_yellow(m), "t".by_rgb(m, 243, 201, 35));
    assert_eq!("t".color_bright_yellow(m), "t".by_rgb(m, 255, 234, 150));
    assert_eq!("t".color_cyan(m), "t".by_rgb(m, 16, 227, 227));
    assert_eq!("t".color_bright_cyan(m), "t".by_rgb(m, 0, 255, 255));
    assert_eq!("t".color_magenta(m), "t".by_rgb(m, 255, 0, 255));
    assert_eq!("t".color_pink(m), "t".by_rgb(m, 243, 154, 245));
    assert_eq!("t".color_blue(m), "t".by_rgb(m, 0, 0, 255));
    assert_eq!("t".color_lightblue(m), "t".by_rgb(m, 145, 220, 255));
    assert_eq!("t".color_orange(m), "t".by_rgb(m, 255, 165, 0));
    assert_eq!("t".color_bright_orange(m), "t".by_rgb(m, 255, 157, 0));
    assert_eq!("t".color_purple(m), "t".by_rgb(m, 97, 18, 181));
    assert_eq!("t".color_lilac(m), "t".by_rgb(m, 200, 162, 200));
}

#[test]
fn one_preset_spelled_out() {
    assert_eq!(
        "ok".color_green(ColorMode::Apply),
        "\u{1b}[38;2;0;255;0mok\u{1b}[0m"
    );
}

#[test]
fn suppressed_presets_return_the_text_unchanged() {
    let m = ColorMode::Suppress;
    assert_eq!("t".color_green(m), "t");
    assert_eq!("t".color_error_red(m), "t");
    assert_eq!("t".color_lilac(m), "t");
}

#[test]
fn owned_strings_color_like_borrowed_ones() {
    let m = ColorMode::Apply;
    assert_eq!(String::from("hi").by_rgb(m, 9, 8, 7), "hi".by_rgb(m, 9, 8, 7));
    assert_eq!(String::from("hi").color_cyan(m), "hi".color_cyan(m));
    assert_eq!(String::from("hi").color_purple(m), "hi".color_purple(m));
}

#[test]
fn decimal_renders_exact_numerals() {
    assert_eq!(decimal(0), "0");
    assert_eq!(decimal(7), "7");
    assert_eq!(decimal(42), "42");
    assert_eq!(decimal(255), "255");
    assert_eq!(decimal(1000), "1000");
    assert_eq!(decimal(u32::MAX), "4294967295");
}

#[test]
fn out_of_range_channels_pass_through_unvalidated() {
    assert_eq!(
        "t".by_rgb(ColorMode::Apply, 300, 0, 999),
        "\u{1b}[38;2;300;0;999mt\u{1b}[0m"
    );
}
