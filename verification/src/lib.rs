//! Unicode character library: themed symbol tables and a security
//! analyzer that scans text for invisible characters, bidirectional
//! control characters, confusable look-alikes and mixed scripts.

pub mod unicode;

pub use unicode::UnicodeConfig;
pub use unicode::UnicodeProvider;
pub use unicode::UnicodeTheme;
pub use unicode::arrows::Arrow;
pub use unicode::arrows::Navigation;
pub use unicode::blocks::Block;
pub use unicode::editor::Cursor;
pub use unicode::editor::Selection;
pub use unicode::file_types::FileType;
pub use unicode::file_types::LanguageType;
pub use unicode::file_types::get_file_type_from_extension;
pub use unicode::file_types::get_file_type_from_filename;
pub use unicode::git::GitAction;
pub use unicode::git::GitBranch;
pub use unicode::git::GitDiff;
pub use unicode::git::GitStatus;
pub use unicode::security::RiskLevel;
pub use unicode::security::Script;
pub use unicode::security::SecurityAnalysis;
pub use unicode::security::analyze_text;
pub use unicode::security::generate_security_report;
pub use unicode::security::get_char_description;
pub use unicode::security::get_script;
pub use unicode::security::is_bidi_char;
pub use unicode::security::is_confusable_char;
pub use unicode::security::is_invisible_char;
pub use unicode::security::sanitize_text;
pub use unicode::shapes::Shape;
pub use unicode::status::Status;
pub use unicode::symbols::Symbol;
pub use unicode::ui::Border;
pub use unicode::ui::Control;
pub use unicode::ui::Indicator;
pub use unicode::ui::Separator;
