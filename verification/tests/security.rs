use unicode_rs::analyze_text;
use unicode_rs::generate_security_report;
use unicode_rs::get_script;
use unicode_rs::is_bidi_char;
use unicode_rs::is_confusable_char;
use unicode_rs::is_invisible_char;
use unicode_rs::sanitize_text;
use unicode_rs::RiskLevel;
use unicode_rs::Script;

#[test]
fn test_safe_text() {
    let analysis = analyze_text("Hello World");
    assert_eq!(analysis.risk_level, RiskLevel::Low);
    assert!(!analysis.has_invisible_chars);
    assert!(!analysis.has_bidi_overrides);
    assert!(!analysis.has_confusables);
}

#[test]
fn test_invisible_characters() {
    let text = "Hello\u{200B}World";
    let analysis = analyze_text(text);
    assert!(analysis.has_invisible_chars);
    assert_eq!(analysis.invisible_chars.len(), 1);
    assert_eq!(analysis.invisible_chars[0].1, '\u{200B}');
    assert!(analysis.risk_level >= RiskLevel::High);
}

#[test]
fn test_bidi_override() {
    let text = "filename\u{202E}gpj.exe";
    let analysis = analyze_text(text);
    assert!(analysis.has_bidi_overrides);
    assert_eq!(analysis.bidi_chars.len(), 1);
    assert_eq!(analysis.bidi_chars[0].1, '\u{202E}');
    assert_eq!(analysis.risk_level, RiskLevel::Critical);
}

#[test]
fn test_mixed_scripts() {
    let text = "\u{0440}\u{0430}\u{0443}\u{0440}\u{0430}\u{04CF}.com";
    let analysis = analyze_text(text);
    assert!(analysis.has_mixed_scripts);
    assert!(analysis.scripts.len() > 1);
    assert!(analysis.risk_level >= RiskLevel::High);
}

#[test]
fn test_sanitization() {
    let dangerous = "Hello\u{200B}World\u{202E}Test";
    let sanitized = sanitize_text(dangerous);
    assert_eq!(sanitized, "HelloWorldTest");

    let analysis = analyze_text(&sanitized);
    assert_eq!(analysis.risk_level, RiskLevel::Low);
}

#[test]
fn test_character_detection() {
    assert!(is_invisible_char('\u{200B}'));
    assert!(is_invisible_char('\u{FEFF}'));
    assert!(!is_invisible_char('a'));

    assert!(is_bidi_char('\u{202E}'));
    assert!(is_bidi_char('\u{200F}'));
    assert!(!is_bidi_char('a'));

    assert!(is_confusable_char('\u{0430}'));
    assert!(is_confusable_char('\u{03B1}'));
    assert!(!is_confusable_char('a'));
}

#[test]
fn test_script_detection() {
    assert_eq!(get_script('a'), Script::Latin);
    assert_eq!(get_script('\u{0410}'), Script::Cyrillic);
    assert_eq!(get_script('\u{03B1}'), Script::Greek);
    assert_eq!(get_script('\u{4E16}'), Script::Chinese);
}

#[test]
fn test_risk_calculation() {
    let safe = analyze_text("Hello World");
    assert_eq!(safe.risk_level, RiskLevel::Low);

    let invisible = analyze_text("Hello\u{200B}World");
    assert!(invisible.risk_level >= RiskLevel::High);

    let bidi = analyze_text("test\u{202E}evil");
    assert_eq!(bidi.risk_level, RiskLevel::Critical);
}

#[test]
fn test_security_report() {
    let text = "Hello\u{200B}World";
    let report = generate_security_report(text);
    assert!(report.contains("INVISIBLE CHARACTERS DETECTED"));
    assert!(report.contains("U+200B"));
    assert!(report.contains("Zero Width Space"));
}
