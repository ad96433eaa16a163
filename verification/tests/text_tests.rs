use basic_cli::locale::{locale_all_strings, locale_env_keys, locale_from_env, locale_get_string, locale_or_default, locales_or_fallback, try_locale_get_ok};
use basic_cli::text::{before_char, eq_ignore_ascii_case, is_whitespace, strip_line_ending, trim, trim_end_char, u64_to_decimal};

#[test]
fn line_endings_are_stripped() {
    assert_eq!(strip_line_ending("hello\n"), "hello");
    assert_eq!(strip_line_ending("hello\r\n"), "hello");
    assert_eq!(strip_line_ending("hello\n\n"), "hello");
    assert_eq!(strip_line_ending("a\n\r\n"), "a\n");
    assert_eq!(strip_line_ending("no ending"), "no ending");
    assert_eq!(trim_end_char("xx--", '-'), "xx");
}

#[test]
fn trimming_matches_std() {
    for s in ["  a b  ", "\u{3000}x\u{85}", "", "   ", "\tline\n", "é "] {
        assert_eq!(trim(s), s.trim());
    }
    assert!(is_whitespace('\u{2028}'));
    assert!(!is_whitespace('x'));
}

#[test]
fn splitting_and_case() {
    assert_eq!(before_char("en_US.UTF-8", '.'), "en_US");
    assert_eq!(before_char("plain", '.'), "plain");
    assert!(eq_ignore_ascii_case("Content-Type", "content-type"));
    assert!(!eq_ignore_ascii_case("Content-Type", "content-typ"));
    assert_eq!(u64_to_decimal(0), "0");
    assert_eq!(u64_to_decimal(12345), "12345");
}

#[test]
fn locale_from_variables() {
    let keys = locale_env_keys();
    assert_eq!(keys, vec!["LC_ALL".to_string(), "LC_CTYPE".to_string(), "LANG".to_string()]);
    let values = vec![None, Some("  ".to_string()), Some(" de_DE.UTF-8@euro ".to_string())];
    assert_eq!(locale_from_env(&values), Some("de_DE".to_string()));
    let values = vec![Some(".UTF-8".to_string()), Some("fr_FR".to_string()), None];
    assert_eq!(locale_from_env(&values), Some("fr_FR".to_string()));
    assert_eq!(locale_from_env(&vec![None, None, None]), None);
}

#[test]
fn locale_fallbacks() {
    assert_eq!(locale_or_default(None), "en-US");
    assert_eq!(locale_or_default(Some("ja-JP".to_string())), "ja-JP");
    assert!(!locale_all_strings().is_empty());
    let preferred = locale_get_string();
    assert_eq!(try_locale_get_ok(preferred.clone()), Ok(preferred));
}

#[test]
fn a_stripped_line_never_ends_with_a_carriage_return() {
    assert_eq!(strip_line_ending("a\r\r\n\n"), "a");
    assert_eq!(strip_line_ending("a\n\r"), "a\n");
    assert_eq!(strip_line_ending("\r\n"), "");
    assert!(!strip_line_ending("x\r\n").ends_with('\r'));
}

#[test]
fn the_system_list_is_kept_unless_empty() {
    let listed = vec!["fr-FR".to_string(), "en-GB".to_string()];
    assert_eq!(locales_or_fallback(listed.clone(), None), listed);
    assert_eq!(locales_or_fallback(Vec::new(), Some("de-DE".to_string())), vec!["de-DE".to_string()]);
    assert_eq!(locales_or_fallback(Vec::new(), None), vec!["en-US".to_string()]);
}
