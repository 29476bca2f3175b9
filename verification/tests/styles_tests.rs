use cynthia_term::CynthiaStyles;
use cynthia_term::StyleKind;
use cynthia_term::styles::apply_style;
use cynthia_term::styles::center_of_width;

#[test]
fn bold_wraps_with_code_one() {
    assert_eq!("hello".style_bold(), "\u{1b}[1mhello\u{1b}[0m");
}

#[test]
fn dim_wraps_with_code_two() {
    assert_eq!("hello".style_dim(), "\u{1b}[2mhello\u{1b}[0m");
}

#[test]
fn italic_wraps_with_code_three() {
    assert_eq!("hello".style_italic(), "\u{1b}[3mhello\u{1b}[0m");
}

#[test]
fn underline_wraps_with_code_four() {
    assert_eq!("hello".style_underline(), "\u{1b}[4mhello\u{1b}[0m");
}

#[test]
fn blink_wraps_with_code_five() {
    assert_eq!("hello".style_blink(), "\u{1b}[5mhello\u{1b}[0m");
}

#[test]
fn reverse_wraps_with_code_seven() {
    assert_eq!("hello".style_reverse(), "\u{1b}[7mhello\u{1b}[0m");
}

#[test]
fn strikethrough_wraps_with_code_nine() {
    assert_eq!("hello".style_strikethrough(), "\u{1b}[9mhello\u{1b}[0m");
}

#[test]
fn clear_emits_reset_on_both_sides() {
    assert_eq!("hello".style_clear(), "\u{1b}[0mhello\u{1b}[0m");
}

#[test]
fn empty_text_still_gets_wrapped() {
    assert_eq!("".style_bold(), "\u{1b}[1m\u{1b}[0m");
}

#[test]
fn owned_strings_style_like_borrowed_ones() {
    assert_eq!(String::from("hi").style_bold(), "hi".style_bold());
    assert_eq!(String::from("hi").style_italic(), "hi".style_italic());
    assert_eq!(String::from("hi").style_underline(), "hi".style_underline());
    assert_eq!(
        String::from("hi").style_strikethrough(),
        "hi".style_strikethrough()
    );
    assert_eq!(String::from("hi").style_dim(), "hi".style_dim());
    assert_eq!(String::from("hi").style_blink(), "hi".style_blink());
    assert_eq!(String::from("hi").style_reverse(), "hi".style_reverse());
    assert_eq!(String::from("hi").style_clear(), "hi".style_clear());
    assert_eq!(String::from("hi").style_centered(9), "hi".style_centered(9));
}

#[test]
fn apply_style_matches_the_extension_methods() {
    assert_eq!(apply_style("x", StyleKind::Bold, 0), "x".style_bold());
    assert_eq!(apply_style("x", StyleKind::Clear, 0), "x".style_clear());
    assert_eq!(
        apply_style("abc", StyleKind::Centered, 9),
        "abc".style_centered(9)
    );
}

#[test]
fn centering_pads_half_the_free_space_on_each_side() {
    // 9 columns, 3 alphanumeric characters: (9 - 3) / 2 = 3 spaces a side
    assert_eq!(center_of_width("abc", 9), "   abc   ");
}

#[test]
fn centering_truncates_odd_free_space() {
    // 10 columns, 3 alphanumeric characters: (10 - 3) / 2 = 3 spaces a side
    assert_eq!(center_of_width("abc", 10), "   abc   ");
}

#[test]
fn centering_counts_only_alphanumeric_characters() {
    // "a b!" holds 2 alphanumeric characters: (10 - 2) / 2 = 4 a side
    assert_eq!(center_of_width("a b!", 10), "    a b!    ");
}

#[test]
fn centering_already_styled_text_counts_code_letters() {
    // the known approximation: ESC and '[' are not alphanumeric, but the
    // digits and the 'm' of the escape codes are, so "\u{1b}[1mab\u{1b}[0m"
    // counts 6 visible characters, not 2
    let styled = "ab".style_bold();
    let centered = center_of_width(&styled, 8);
    assert_eq!(centered, format!(" {} ", styled));
}

#[test]
fn centering_wider_text_yields_no_padding() {
    assert_eq!(center_of_width("abcdef", 3), "abcdef");
}

#[test]
fn centering_empty_text_pads_both_sides() {
    assert_eq!(center_of_width("", 4), "    ");
}

#[test]
fn centering_at_exact_width_yields_no_padding() {
    assert_eq!(center_of_width("abcd", 4), "abcd");
}
