use unicode_rs::get_file_type_from_extension;
use unicode_rs::get_file_type_from_filename;
use unicode_rs::Arrow;
use unicode_rs::FileType;
use unicode_rs::GitStatus;
use unicode_rs::LanguageType;
use unicode_rs::Shape;
use unicode_rs::UnicodeProvider;
use unicode_rs::UnicodeTheme;

#[test]
fn test_arrow_characters() {
    assert_eq!(Arrow::Right.get_char(UnicodeTheme::Minimal), '>');
    assert_eq!(Arrow::Right.get_char(UnicodeTheme::Rich), '\u{2192}');
    assert_eq!(Arrow::Up.get_char(UnicodeTheme::Basic), '\u{2191}');
}

#[test]
fn test_shape_characters() {
    assert_eq!(Shape::Circle.get_char(UnicodeTheme::Minimal), 'o');
    assert_eq!(Shape::Circle.get_char(UnicodeTheme::Rich), '\u{25CF}');
}

#[test]
fn test_git_status_characters() {
    assert_eq!(GitStatus::Modified.get_char(UnicodeTheme::Minimal), 'M');
    assert_eq!(GitStatus::Modified.get_char(UnicodeTheme::Rich), '\u{25CF}');
}

#[test]
fn test_extension_mapping() {
    assert_eq!(get_file_type_from_extension("rs"), LanguageType::Rust);
    assert_eq!(get_file_type_from_extension("RS"), LanguageType::Rust);
    assert_eq!(get_file_type_from_extension("tsx"), LanguageType::JavaScript);
    assert_eq!(get_file_type_from_extension("yaml"), LanguageType::Yaml);
    assert_eq!(get_file_type_from_extension("dockerfile"), LanguageType::Docker);
    assert_eq!(get_file_type_from_extension("unknown"), LanguageType::Code);
}

#[test]
fn test_filename_mapping() {
    assert_eq!(get_file_type_from_filename(".gitconfig"), FileType::Hidden);
    assert_eq!(get_file_type_from_filename("build.tmp"), FileType::Temporary);
    assert_eq!(get_file_type_from_filename("data.bak"), FileType::Backup);
    assert_eq!(get_file_type_from_filename("server.log"), FileType::Log);
    assert_eq!(get_file_type_from_filename("Settings"), FileType::Config);
    assert_eq!(get_file_type_from_filename("README"), FileType::Documentation);
    assert_eq!(get_file_type_from_filename("notes.txt"), FileType::File);
}
