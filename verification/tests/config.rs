use unicode_rs::Symbol;
use unicode_rs::UnicodeConfig;
use unicode_rs::UnicodeProvider;
use unicode_rs::UnicodeTheme;

#[test]
fn test_symbol_themes() {
    assert_eq!(Symbol::Check.get_char(UnicodeTheme::Minimal), 'v');
    assert_eq!(Symbol::Check.get_char(UnicodeTheme::Basic), '\u{2713}');
    assert_eq!(Symbol::Check.get_char(UnicodeTheme::Rich), '\u{2713}');
}

#[test]
fn test_config_with_fallback() {
    let config = UnicodeConfig::with_theme(UnicodeTheme::Rich).with_fallback();
    assert!(config.use_fallback);
}

#[test]
fn test_config_with_override() {
    let config = UnicodeConfig::default().with_override("custom_check", '\u{221A}');
    assert_eq!(config.override_char("custom_check"), Some('\u{221A}'));
}

#[test]
fn test_theme_default_is_rich() {
    assert_eq!(UnicodeTheme::default(), UnicodeTheme::Rich);
    let config = UnicodeConfig::default();
    assert_eq!(config.theme, UnicodeTheme::Rich);
    assert!(!config.use_fallback);
    assert!(config.overrides.is_empty());
}

#[test]
fn test_config_override_applies_to_get_char() {
    let config = UnicodeConfig::default().with_override("check", '+');
    assert_eq!(config.get_char(&Symbol::Check, Some("check")), '+');
    assert_eq!(config.get_char(&Symbol::Check, Some("other")), '\u{2713}');
    assert_eq!(config.get_char(&Symbol::Check, None), '\u{2713}');
}

#[test]
fn test_config_override_shadows_earlier() {
    let config = UnicodeConfig::default()
        .with_override("check", '+')
        .with_override("check", '-');
    assert_eq!(config.override_char("check"), Some('-'));
    assert_eq!(config.override_char("missing"), None);
}

#[test]
fn test_config_fallback_replaces_non_ascii() {
    let config = UnicodeConfig::with_theme(UnicodeTheme::Rich).with_fallback();
    assert_eq!(config.get_char(&Symbol::Check, None), 'v');
    let plain = UnicodeConfig::with_theme(UnicodeTheme::Rich);
    assert_eq!(plain.get_char(&Symbol::Check, None), '\u{2713}');
}

#[test]
fn test_get_str_printable_and_fallback() {
    assert_eq!(Symbol::Check.get_str(UnicodeTheme::Minimal), "v");
    assert_eq!(Symbol::Check.get_str(UnicodeTheme::Rich), "?");
    assert_eq!(Symbol::At.get_str(UnicodeTheme::Fancy), "@");
}
