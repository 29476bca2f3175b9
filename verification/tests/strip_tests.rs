use cynthia_term::ColorMode;
use cynthia_term::CynthiaColors;
use cynthia_term::CynthiaStyles;
use cynthia_term::strip::strip_ansi;
use cynthia_term::styles::center_of_width;

#[test]
fn stripping_styled_output_returns_the_input() {
    assert_eq!(strip_ansi(&"hello".style_bold()), "hello");
    assert_eq!(strip_ansi(&"hello".style_dim()), "hello");
    assert_eq!(strip_ansi(&"hello".style_italic()), "hello");
    assert_eq!(strip_ansi(&"hello".style_underline()), "hello");
    assert_eq!(strip_ansi(&"hello".style_blink()), "hello");
    assert_eq!(strip_ansi(&"hello".style_reverse()), "hello");
    assert_eq!(strip_ansi(&"hello".style_strikethrough()), "hello");
    assert_eq!(strip_ansi(&"hello".style_clear()), "hello");
}

#[test]
fn stripping_colored_output_returns_the_input() {
    let colored = "some text".by_rgb(ColorMode::Apply, 184, 28, 74);
    assert_eq!(strip_ansi(&colored), "some text");
    let preset = "warning".color_yellow(ColorMode::Apply);
    assert_eq!(strip_ansi(&preset), "warning");
}

#[test]
fn stripping_nested_wrappings_returns_the_input() {
    let both = "hey".color_green(ColorMode::Apply).style_bold();
    assert_eq!(strip_ansi(&both), "hey");
}

#[test]
fn stripping_plain_text_changes_nothing() {
    assert_eq!(strip_ansi("no escapes here"), "no escapes here");
    assert_eq!(strip_ansi(""), "");
}

#[test]
fn stripping_centered_output_keeps_the_padding() {
    // centering emits no escape sequence, so stripping leaves the pad
    assert_eq!(strip_ansi(&center_of_width("abc", 9)), "   abc   ");
}
