//! Tests for locale-tag normalization.

use winloop::normalize_locale;

fn norm(s: &str) -> String {
    let bytes = normalize_locale(&s.as_bytes().to_vec());
    String::from_utf8(bytes).unwrap()
}

#[test]
fn locale_codeset_suffix_is_cut() {
    assert_eq!(norm("en_US.UTF-8"), "en-US");
    assert_eq!(norm("de_DE.ISO-8859-1"), "de-DE");
}

#[test]
fn locale_modifier_suffix_is_cut() {
    assert_eq!(norm("fr_FR@euro"), "fr-FR");
    assert_eq!(norm("sr_RS.UTF-8@latin"), "sr-RS");
}

#[test]
fn locale_underscore_becomes_hyphen() {
    assert_eq!(norm("pt_BR"), "pt-BR");
    assert_eq!(norm("C"), "C");
    assert_eq!(norm("en-GB"), "en-GB");
}

#[test]
fn locale_empty_input_falls_back() {
    assert_eq!(norm(""), "en-US");
    assert_eq!(norm(".UTF-8"), "en-US");
    assert_eq!(norm("@euro"), "en-US");
}
