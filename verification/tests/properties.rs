use unicode_rs::analyze_text;
use unicode_rs::generate_security_report;
use unicode_rs::get_char_description;
use unicode_rs::sanitize_text;
use unicode_rs::RiskLevel;
use unicode_rs::Script;

#[test]
fn test_empty_text_is_low_risk() {
    let analysis = analyze_text("");
    assert!(!analysis.has_invisible_chars);
    assert!(!analysis.has_bidi_overrides);
    assert!(!analysis.has_mixed_scripts);
    assert!(!analysis.has_confusables);
    assert!(analysis.invisible_chars.is_empty());
    assert!(analysis.bidi_chars.is_empty());
    assert!(analysis.scripts.is_empty());
    assert_eq!(analysis.risk_level, RiskLevel::Low);
}

#[test]
fn test_safe_text_scripts_are_latin_only() {
    let analysis = analyze_text("Hello World");
    assert_eq!(analysis.scripts, vec![Script::Latin]);
    assert!(!analysis.has_mixed_scripts);
    let digits = analyze_text("abc 123, ok?!");
    assert_eq!(digits.scripts, vec![Script::Latin]);
    assert!(!digits.has_mixed_scripts);
}

#[test]
fn test_sanitize_is_idempotent() {
    let texts = [
        "Hello\u{200B}World\u{202E}DangerousText",
        "plain text",
        "",
        "\u{FEFF}\u{2066}mixed\u{061C}",
    ];
    for text in texts {
        let once = sanitize_text(text);
        let twice = sanitize_text(&once);
        assert_eq!(once, twice);
    }
}

#[test]
fn test_sanitize_removes_all_flagged() {
    let text = "a\u{200B}b\u{202E}c\u{2066}d\u{FEFF}";
    let clean = sanitize_text(text);
    let analysis = analyze_text(&clean);
    assert!(!analysis.has_invisible_chars);
    assert!(!analysis.has_bidi_overrides);
}

#[test]
fn test_sanitize_concrete_scenario() {
    let sanitized = sanitize_text("Hello\u{200B}World\u{202E}DangerousText");
    assert_eq!(sanitized, "HelloWorldDangerousText");
}

#[test]
fn test_risk_never_decreases_when_adding_findings() {
    let base = analyze_text("Hello");
    let one = analyze_text("Hello\u{200B}");
    let two = analyze_text("Hello\u{200B}\u{202E}");
    assert!(one.risk_level >= base.risk_level);
    assert!(two.risk_level >= one.risk_level);
}

#[test]
fn test_finding_offsets_strictly_increase() {
    let analysis = analyze_text("a\u{200B}b\u{200B}c\u{FEFF}");
    assert_eq!(analysis.invisible_chars.len(), 3);
    assert_eq!(analysis.invisible_chars[0].0, 1);
    assert_eq!(analysis.invisible_chars[1].0, 5);
    assert_eq!(analysis.invisible_chars[2].0, 9);
    assert!(analysis.invisible_chars[0].0 < analysis.invisible_chars[1].0);
    assert!(analysis.invisible_chars[1].0 < analysis.invisible_chars[2].0);
}

#[test]
fn test_invisible_offset_is_byte_position() {
    let analysis = analyze_text("Hello\u{200B}World");
    assert_eq!(analysis.invisible_chars.len(), 1);
    assert_eq!(analysis.invisible_chars[0].0, 5);
    assert_eq!(analysis.invisible_chars[0].2, "Zero Width Space");
}

#[test]
fn test_single_invisible_alone_is_medium() {
    // a lone soft hyphen: 3 points, no mixed-script contribution possible
    let analysis = analyze_text("\u{00AD}");
    assert!(analysis.has_invisible_chars);
    assert!(!analysis.has_mixed_scripts);
    assert_eq!(analysis.risk_level, RiskLevel::Medium);
}

#[test]
fn test_single_isolate_alone_is_high() {
    // a lone directional isolate: bidirectional but not invisible, 4 points
    let analysis = analyze_text("\u{2066}");
    assert!(analysis.has_bidi_overrides);
    assert!(!analysis.has_invisible_chars);
    assert!(!analysis.has_mixed_scripts);
    assert_eq!(analysis.risk_level, RiskLevel::High);
}

#[test]
fn test_invisible_in_latin_text_is_high() {
    // 3 points for the invisible character plus 2 for the mixed scripts
    // introduced by its unrecognized code point beside Latin
    let analysis = analyze_text("Hello\u{200B}World");
    assert!(analysis.has_invisible_chars);
    assert!(analysis.has_mixed_scripts);
    assert_eq!(analysis.risk_level, RiskLevel::High);
}

#[test]
fn test_volume_bonus_for_many_invisibles() {
    // four invisible characters: 3 + 2 volume points, no other findings
    let analysis = analyze_text("\u{200B}\u{200B}\u{200B}\u{200B}");
    assert_eq!(analysis.invisible_chars.len(), 4);
    assert!(!analysis.has_mixed_scripts);
    assert_eq!(analysis.risk_level, RiskLevel::High);
}

#[test]
fn test_volume_bonus_for_two_bidi() {
    // two distinct isolates: 4 + 2 volume + 2 mixed (two Other scripts)
    let analysis = analyze_text("\u{2066}\u{2067}");
    assert_eq!(analysis.bidi_chars.len(), 2);
    assert!(analysis.has_mixed_scripts);
    assert_eq!(analysis.risk_level, RiskLevel::Critical);
}

#[test]
fn test_confusable_scores() {
    // a lone Cyrillic letter: confusable but single-script, 2 points
    let alone = analyze_text("\u{0430}");
    assert!(alone.has_confusables);
    assert!(!alone.has_mixed_scripts);
    assert_eq!(alone.risk_level, RiskLevel::Medium);
    // beside Latin it is also mixed-script: 2 + 2 points
    let mixed = analyze_text("a\u{0430}");
    assert!(mixed.has_confusables);
    assert!(mixed.has_mixed_scripts);
    assert_eq!(mixed.risk_level, RiskLevel::High);
}

#[test]
fn test_monolingual_non_latin_is_not_mixed() {
    let analysis = analyze_text("\u{0430}\u{0431}\u{0432}");
    assert_eq!(analysis.scripts, vec![Script::Cyrillic]);
    assert!(!analysis.has_mixed_scripts);
}

#[test]
fn test_char_descriptions() {
    assert_eq!(get_char_description('\u{00AD}'), "Soft Hyphen");
    assert_eq!(get_char_description('\u{200B}'), "Zero Width Space");
    assert_eq!(get_char_description('\u{202E}'), "Right-to-Left Override");
    assert_eq!(get_char_description('\u{FEFF}'), "Zero Width No-Break Space (BOM)");
    assert_eq!(get_char_description('\u{2063}'), "Unknown Special Character");
}

#[test]
fn test_report_for_safe_text() {
    let report = generate_security_report("Hello World");
    assert!(report.starts_with("Unicode Security Analysis\n"));
    assert!(report.contains("Risk Level: Low"));
    assert!(report.contains("No security concerns detected."));
    assert!(!report.contains("DETECTED"));
}

#[test]
fn test_report_sections_and_positions() {
    let report = generate_security_report("filename\u{202E}gpj.exe");
    assert!(report.contains("Risk Level: Critical"));
    assert!(report.contains("BIDIRECTIONAL OVERRIDE CHARACTERS DETECTED"));
    assert!(report.contains("Position 8: U+202E (Right-to-Left Override)"));
    assert!(report.contains("MIXED SCRIPTS DETECTED"));
    assert!(report.contains("Latin"));
    assert!(!report.contains("No security concerns detected."));
}

#[test]
fn test_report_lists_other_script_code_point() {
    let report = generate_security_report("Hello\u{200B}World");
    assert!(report.contains("Other(8203)"));
}
