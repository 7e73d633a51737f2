use blackforge::backend::summary;
use blackforge::launcher::game_args;
use blackforge::text::{decimal_string, eq_ignore_case, same_text, squeeze};

#[test]
fn decimals() {
    assert_eq!(decimal_string(0), "0");
    assert_eq!(decimal_string(10), "10");
    assert_eq!(decimal_string(u64::MAX), u64::MAX.to_string());
}

#[test]
fn whitespace_is_squeezed() {
    assert_eq!(squeeze("  a \n\t b  c "), "a b c");
    assert_eq!(squeeze(""), "");
    assert_eq!(squeeze(" \u{3000} "), "");
    assert_eq!(summary("One\nline  of\u{00a0}text"), "One line of text");
}

#[test]
fn game_args_split_at_whitespace() {
    assert_eq!(game_args(" -console  -windowed\t+connect 1.2.3.4 "), vec!["-console", "-windowed", "+connect", "1.2.3.4"]);
    assert!(game_args("   ").is_empty());
}

#[test]
fn comparisons() {
    assert!(same_text("abc", "abc"));
    assert!(!same_text("abc", "abd"));
    assert!(eq_ignore_case("Error", "eRROR"));
    assert!(!eq_ignore_case("Error", "Errors"));
    assert!(!eq_ignore_case("É", "é"));
}
