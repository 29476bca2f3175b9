use cynthia_term::term::centered_in_terminal;
use cynthia_term::term::horizline;
use cynthia_term::term::rule_of_width;

#[test]
fn rule_has_exactly_the_requested_width() {
    let r = rule_of_width(5);
    assert_eq!(r, "─────");
    assert_eq!(r.chars().count(), 5);
    assert!(r.chars().all(|c| c == '─'));
}

#[test]
fn rule_of_width_zero_is_empty() {
    assert_eq!(rule_of_width(0), "");
}

#[test]
fn rule_of_width_one() {
    assert_eq!(rule_of_width(1), "\u{2500}");
}

#[test]
fn horizline_is_solid_when_a_terminal_answers() {
    // without an attached terminal the query yields None; when it
    // answers, the rule is made solely of the line character
    if let Some(line) = horizline() {
        assert!(line.chars().all(|c| c == '─'));
    }
}

#[test]
fn terminal_centering_contains_the_text_when_a_terminal_answers() {
    if let Some(s) = centered_in_terminal("abc") {
        assert!(s.contains("abc"));
        assert!(s.starts_with(' ') || s.starts_with("abc"));
    }
}
