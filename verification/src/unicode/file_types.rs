//! File type icons and indicators for different file types and extensions.

use vstd::prelude::*;
use vstd::string::StringSliceAdditionalSpecFns;
use crate::unicode::UnicodeProvider;
use crate::unicode::UnicodeTheme;

verus! {

/// File type indicators.
#[derive(Debug, Clone, Copy, PartialEq, Eq)]
pub enum FileType {
    /// Regular file
    File,
    /// Directory/folder
    Directory,
    /// Executable file
    Executable,
    /// Symbolic link
    SymLink,
    /// Hidden file
    Hidden,
    /// Configuration file
    Config,
    /// Documentation file
    Documentation,
    /// Image file
    Image,
    /// Video file
    Video,
    /// Audio file
    Audio,
    /// Archive file
    Archive,
    /// Database file
    Database,
    /// Log file
    Log,
    /// Temporary file
    Temporary,
    /// Backup file
    Backup,
}

impl UnicodeProvider for FileType {
    open spec fn spec_char(&self, theme: UnicodeTheme) -> char {
        match (*self, theme) {
            (FileType::File, UnicodeTheme::Minimal) => '-',
            (FileType::File, UnicodeTheme::Basic) => '\u{2022}',
            (FileType::File, UnicodeTheme::Rich) => '\u{1F4C4}',
            (FileType::File, UnicodeTheme::Fancy) => '\u{1F4CB}',

            (FileType::Directory, UnicodeTheme::Minimal) => 'D',
            (FileType::Directory, UnicodeTheme::Basic) => '/',
            (FileType::Directory, UnicodeTheme::Rich) => '\u{1F4C1}',
            (FileType::Directory, UnicodeTheme::Fancy) => '\u{1F5C2}',

            (FileType::Executable, UnicodeTheme::Minimal) => 'X',
            (FileType::Executable, UnicodeTheme::Basic) => '*',
            (FileType::Executable, UnicodeTheme::Rich) => '\u{26A1}',
            (FileType::Executable, UnicodeTheme::Fancy) => '\u{1F527}',

            (FileType::SymLink, UnicodeTheme::Minimal) => 'L',
            (FileType::SymLink, UnicodeTheme::Basic) => '@',
            (FileType::SymLink, UnicodeTheme::Rich) => '\u{1F517}',
            (FileType::SymLink, UnicodeTheme::Fancy) => '\u{26D3}',

            (FileType::Hidden, UnicodeTheme::Minimal) => '.',
            (FileType::Hidden, UnicodeTheme::Basic) => '.',
            (FileType::Hidden, UnicodeTheme::Rich) => '\u{1F441}',
            (FileType::Hidden, UnicodeTheme::Fancy) => '\u{1F575}',

            (FileType::Config, UnicodeTheme::Minimal) => 'C',
            (FileType::Config, UnicodeTheme::Basic) => '#',
            (FileType::Config, UnicodeTheme::Rich) => '\u{2699}',
            (FileType::Config, UnicodeTheme::Fancy) => '\u{1F527}',

            (FileType::Documentation, UnicodeTheme::Minimal) => 'D',
            (FileType::Documentation, UnicodeTheme::Basic) => '?',
            (FileType::Documentation, UnicodeTheme::Rich) => '\u{1F4D6}',
            (FileType::Documentation, UnicodeTheme::Fancy) => '\u{1F4DA}',

            (FileType::Image, UnicodeTheme::Minimal) => 'I',
            (FileType::Image, UnicodeTheme::Basic) => '%',
            (FileType::Image, UnicodeTheme::Rich) => '\u{1F5BC}',
            (FileType::Image, UnicodeTheme::Fancy) => '\u{1F3A8}',

            (FileType::Video, UnicodeTheme::Minimal) => 'V',
            (FileType::Video, UnicodeTheme::Basic) => '&',
            (FileType::Video, UnicodeTheme::Rich) => '\u{1F3AC}',
            (FileType::Video, UnicodeTheme::Fancy) => '\u{1F4F9}',

            (FileType::Audio, UnicodeTheme::Minimal) => 'A',
            (FileType::Audio, UnicodeTheme::Basic) => '~',
            (FileType::Audio, UnicodeTheme::Rich) => '\u{1F3B5}',
            (FileType::Audio, UnicodeTheme::Fancy) => '\u{1F3B6}',

            (FileType::Archive, UnicodeTheme::Minimal) => 'Z',
            (FileType::Archive, UnicodeTheme::Basic) => '=',
            (FileType::Archive, UnicodeTheme::Rich) => '\u{1F4E6}',
            (FileType::Archive, UnicodeTheme::Fancy) => '\u{1F5DC}',

            (FileType::Database, UnicodeTheme::Minimal) => 'B',
            (FileType::Database, UnicodeTheme::Basic) => '#',
            (FileType::Database, UnicodeTheme::Rich) => '\u{1F5C4}',
            (FileType::Database, UnicodeTheme::Fancy) => '\u{1F4BE}',

            (FileType::Log, UnicodeTheme::Minimal) => 'L',
            (FileType::Log, UnicodeTheme::Basic) => '|',
            (FileType::Log, UnicodeTheme::Rich) => '\u{1F4DC}',
            (FileType::Log, UnicodeTheme::Fancy) => '\u{1F4CB}',

            (FileType::Temporary, UnicodeTheme::Minimal) => 'T',
            (FileType::Temporary, UnicodeTheme::Basic) => '~',
            (FileType::Temporary, UnicodeTheme::Rich) => '\u{23F3}',
            (FileType::Temporary, UnicodeTheme::Fancy) => '\u{1F5D1}',

            (FileType::Backup, UnicodeTheme::Minimal) => 'B',
            (FileType::Backup, UnicodeTheme::Basic) => '+',
            (FileType::Backup, UnicodeTheme::Rich) => '\u{1F4BE}',
            (FileType::Backup, UnicodeTheme::Fancy) => '\u{1F504}',
        
        }
    }

    fn get_char(&self, theme: UnicodeTheme) -> (c: char)
        ensures
            c == self.spec_char(theme),
    {
        match (*self, theme) {
            (FileType::File, UnicodeTheme::Minimal) => '-',
            (FileType::File, UnicodeTheme::Basic) => '\u{2022}',
            (FileType::File, UnicodeTheme::Rich) => '\u{1F4C4}',
            (FileType::File, UnicodeTheme::Fancy) => '\u{1F4CB}',

            (FileType::Directory, UnicodeTheme::Minimal) => 'D',
            (FileType::Directory, UnicodeTheme::Basic) => '/',
            (FileType::Directory, UnicodeTheme::Rich) => '\u{1F4C1}',
            (FileType::Directory, UnicodeTheme::Fancy) => '\u{1F5C2}',

            (FileType::Executable, UnicodeTheme::Minimal) => 'X',
            (FileType::Executable, UnicodeTheme::Basic) => '*',
            (FileType::Executable, UnicodeTheme::Rich) => '\u{26A1}',
            (FileType::Executable, UnicodeTheme::Fancy) => '\u{1F527}',

            (FileType::SymLink, UnicodeTheme::Minimal) => 'L',
            (FileType::SymLink, UnicodeTheme::Basic) => '@',
            (FileType::SymLink, UnicodeTheme::Rich) => '\u{1F517}',
            (FileType::SymLink, UnicodeTheme::Fancy) => '\u{26D3}',

            (FileType::Hidden, UnicodeTheme::Minimal) => '.',
            (FileType::Hidden, UnicodeTheme::Basic) => '.',
            (FileType::Hidden, UnicodeTheme::Rich) => '\u{1F441}',
            (FileType::Hidden, UnicodeTheme::Fancy) => '\u{1F575}',

            (FileType::Config, UnicodeTheme::Minimal) => 'C',
            (FileType::Config, UnicodeTheme::Basic) => '#',
            (FileType::Config, UnicodeTheme::Rich) => '\u{2699}',
            (FileType::Config, UnicodeTheme::Fancy) => '\u{1F527}',

            (FileType::Documentation, UnicodeTheme::Minimal) => 'D',
            (FileType::Documentation, UnicodeTheme::Basic) => '?',
            (FileType::Documentation, UnicodeTheme::Rich) => '\u{1F4D6}',
            (FileType::Documentation, UnicodeTheme::Fancy) => '\u{1F4DA}',

            (FileType::Image, UnicodeTheme::Minimal) => 'I',
            (FileType::Image, UnicodeTheme::Basic) => '%',
            (FileType::Image, UnicodeTheme::Rich) => '\u{1F5BC}',
            (FileType::Image, UnicodeTheme::Fancy) => '\u{1F3A8}',

            (FileType::Video, UnicodeTheme::Minimal) => 'V',
            (FileType::Video, UnicodeTheme::Basic) => '&',
            (FileType::Video, UnicodeTheme::Rich) => '\u{1F3AC}',
            (FileType::Video, UnicodeTheme::Fancy) => '\u{1F4F9}',

            (FileType::Audio, UnicodeTheme::Minimal) => 'A',
            (FileType::Audio, UnicodeTheme::Basic) => '~',
            (FileType::Audio, UnicodeTheme::Rich) => '\u{1F3B5}',
            (FileType::Audio, UnicodeTheme::Fancy) => '\u{1F3B6}',

            (FileType::Archive, UnicodeTheme::Minimal) => 'Z',
            (FileType::Archive, UnicodeTheme::Basic) => '=',
            (FileType::Archive, UnicodeTheme::Rich) => '\u{1F4E6}',
            (FileType::Archive, UnicodeTheme::Fancy) => '\u{1F5DC}',

            (FileType::Database, UnicodeTheme::Minimal) => 'B',
            (FileType::Database, UnicodeTheme::Basic) => '#',
            (FileType::Database, UnicodeTheme::Rich) => '\u{1F5C4}',
            (FileType::Database, UnicodeTheme::Fancy) => '\u{1F4BE}',

            (FileType::Log, UnicodeTheme::Minimal) => 'L',
            (FileType::Log, UnicodeTheme::Basic) => '|',
            (FileType::Log, UnicodeTheme::Rich) => '\u{1F4DC}',
            (FileType::Log, UnicodeTheme::Fancy) => '\u{1F4CB}',

            (FileType::Temporary, UnicodeTheme::Minimal) => 'T',
            (FileType::Temporary, UnicodeTheme::Basic) => '~',
            (FileType::Temporary, UnicodeTheme::Rich) => '\u{23F3}',
            (FileType::Temporary, UnicodeTheme::Fancy) => '\u{1F5D1}',

            (FileType::Backup, UnicodeTheme::Minimal) => 'B',
            (FileType::Backup, UnicodeTheme::Basic) => '+',
            (FileType::Backup, UnicodeTheme::Rich) => '\u{1F4BE}',
            (FileType::Backup, UnicodeTheme::Fancy) => '\u{1F504}',
        
        }
    }
}

/// Programming language file types.
#[derive(Debug, Clone, Copy, PartialEq, Eq)]
pub enum LanguageType {
    /// Rust files
    Rust,
    /// JavaScript/TypeScript files
    JavaScript,
    /// Python files
    Python,
    /// C/C++ files
    C,
    /// Java files
    Java,
    /// Go files
    Go,
    /// HTML files
    Html,
    /// CSS files
    Css,
    /// JSON files
    Json,
    /// XML files
    Xml,
    /// YAML files
    Yaml,
    /// TOML files
    Toml,
    /// Markdown files
    Markdown,
    /// Shell script files
    Shell,
    /// SQL files
    Sql,
    /// Docker files
    Docker,
    /// Git files
    Git,
    /// Unknown/generic code file
    Code,
}

impl UnicodeProvider for LanguageType {
    open spec fn spec_char(&self, theme: UnicodeTheme) -> char {
        match (*self, theme) {
            (LanguageType::Rust, UnicodeTheme::Minimal) => 'R',
            (LanguageType::Rust, UnicodeTheme::Basic) => 'R',
            (LanguageType::Rust, UnicodeTheme::Rich) => '\u{1F980}',
            (LanguageType::Rust, UnicodeTheme::Fancy) => '\u{2699}',

            (LanguageType::JavaScript, UnicodeTheme::Minimal) => 'J',
            (LanguageType::JavaScript, UnicodeTheme::Basic) => 'J',
            (LanguageType::JavaScript, UnicodeTheme::Rich) => '\u{26A1}',
            (LanguageType::JavaScript, UnicodeTheme::Fancy) => '\u{1F4DC}',

            (LanguageType::Python, UnicodeTheme::Minimal) => 'P',
            (LanguageType::Python, UnicodeTheme::Basic) => 'P',
            (LanguageType::Python, UnicodeTheme::Rich) => '\u{1F40D}',
            (LanguageType::Python, UnicodeTheme::Fancy) => '\u{1F40D}',

            (LanguageType::C, UnicodeTheme::Minimal) => 'C',
            (LanguageType::C, UnicodeTheme::Basic) => 'C',
            (LanguageType::C, UnicodeTheme::Rich) => '\u{26A1}',
            (LanguageType::C, UnicodeTheme::Fancy) => '\u{1F527}',

            (LanguageType::Java, UnicodeTheme::Minimal) => 'J',
            (LanguageType::Java, UnicodeTheme::Basic) => 'J',
            (LanguageType::Java, UnicodeTheme::Rich) => '\u{2615}',
            (LanguageType::Java, UnicodeTheme::Fancy) => '\u{2615}',

            (LanguageType::Go, UnicodeTheme::Minimal) => 'G',
            (LanguageType::Go, UnicodeTheme::Basic) => 'G',
            (LanguageType::Go, UnicodeTheme::Rich) => '\u{1F439}',
            (LanguageType::Go, UnicodeTheme::Fancy) => '\u{1F680}',

            (LanguageType::Html, UnicodeTheme::Minimal) => 'H',
            (LanguageType::Html, UnicodeTheme::Basic) => '<',
            (LanguageType::Html, UnicodeTheme::Rich) => '\u{1F310}',
            (LanguageType::Html, UnicodeTheme::Fancy) => '\u{1F4C4}',

            (LanguageType::Css, UnicodeTheme::Minimal) => 'S',
            (LanguageType::Css, UnicodeTheme::Basic) => '#',
            (LanguageType::Css, UnicodeTheme::Rich) => '\u{1F3A8}',
            (LanguageType::Css, UnicodeTheme::Fancy) => '\u{2728}',

            (LanguageType::Json, UnicodeTheme::Minimal) => '{',
            (LanguageType::Json, UnicodeTheme::Basic) => '{',
            (LanguageType::Json, UnicodeTheme::Rich) => '\u{1F4CB}',
            (LanguageType::Json, UnicodeTheme::Fancy) => '\u{1F5C2}',

            (LanguageType::Xml, UnicodeTheme::Minimal) => '<',
            (LanguageType::Xml, UnicodeTheme::Basic) => '<',
            (LanguageType::Xml, UnicodeTheme::Rich) => '\u{1F4C4}',
            (LanguageType::Xml, UnicodeTheme::Fancy) => '\u{1F5C3}',

            (LanguageType::Yaml, UnicodeTheme::Minimal) => 'Y',
            (LanguageType::Yaml, UnicodeTheme::Basic) => ':',
            (LanguageType::Yaml, UnicodeTheme::Rich) => '\u{1F4DD}',
            (LanguageType::Yaml, UnicodeTheme::Fancy) => '\u{2699}',

            (LanguageType::Toml, UnicodeTheme::Minimal) => 'T',
            (LanguageType::Toml, UnicodeTheme::Basic) => '=',
            (LanguageType::Toml, UnicodeTheme::Rich) => '\u{2699}',
            (LanguageType::Toml, UnicodeTheme::Fancy) => '\u{1F527}',

            (LanguageType::Markdown, UnicodeTheme::Minimal) => 'M',
            (LanguageType::Markdown, UnicodeTheme::Basic) => '#',
            (LanguageType::Markdown, UnicodeTheme::Rich) => '\u{1F4DD}',
            (LanguageType::Markdown, UnicodeTheme::Fancy) => '\u{1F4D6}',

            (LanguageType::Shell, UnicodeTheme::Minimal) => '$',
            (LanguageType::Shell, UnicodeTheme::Basic) => '$',
            (LanguageType::Shell, UnicodeTheme::Rich) => '\u{1F41A}',
            (LanguageType::Shell, UnicodeTheme::Fancy) => '\u{26A1}',

            (LanguageType::Sql, UnicodeTheme::Minimal) => 'Q',
            (LanguageType::Sql, UnicodeTheme::Basic) => 'Q',
            (LanguageType::Sql, UnicodeTheme::Rich) => '\u{1F5C4}',
            (LanguageType::Sql, UnicodeTheme::Fancy) => '\u{1F4BE}',

            (LanguageType::Docker, UnicodeTheme::Minimal) => 'D',
            (LanguageType::Docker, UnicodeTheme::Basic) => '\u{25A1}',
            (LanguageType::Docker, UnicodeTheme::Rich) => '\u{1F433}',
            (LanguageType::Docker, UnicodeTheme::Fancy) => '\u{1F4E6}',

            (LanguageType::Git, UnicodeTheme::Minimal) => 'G',
            (LanguageType::Git, UnicodeTheme::Basic) => '*',
            (LanguageType::Git, UnicodeTheme::Rich) => '\u{1F33F}',
            (LanguageType::Git, UnicodeTheme::Fancy) => '\u{1F500}',

            (LanguageType::Code, UnicodeTheme::Minimal) => 'C',
            (LanguageType::Code, UnicodeTheme::Basic) => '<',
            (LanguageType::Code, UnicodeTheme::Rich) => '\u{1F4BB}',
            (LanguageType::Code, UnicodeTheme::Fancy) => '\u{2328}',
        
        }
    }

    fn get_char(&self, theme: UnicodeTheme) -> (c: char)
        ensures
            c == self.spec_char(theme),
    {
        match (*self, theme) {
            (LanguageType::Rust, UnicodeTheme::Minimal) => 'R',
            (LanguageType::Rust, UnicodeTheme::Basic) => 'R',
            (LanguageType::Rust, UnicodeTheme::Rich) => '\u{1F980}',
            (LanguageType::Rust, UnicodeTheme::Fancy) => '\u{2699}',

            (LanguageType::JavaScript, UnicodeTheme::Minimal) => 'J',
            (LanguageType::JavaScript, UnicodeTheme::Basic) => 'J',
            (LanguageType::JavaScript, UnicodeTheme::Rich) => '\u{26A1}',
            (LanguageType::JavaScript, UnicodeTheme::Fancy) => '\u{1F4DC}',

            (LanguageType::Python, UnicodeTheme::Minimal) => 'P',
            (LanguageType::Python, UnicodeTheme::Basic) => 'P',
            (LanguageType::Python, UnicodeTheme::Rich) => '\u{1F40D}',
            (LanguageType::Python, UnicodeTheme::Fancy) => '\u{1F40D}',

            (LanguageType::C, UnicodeTheme::Minimal) => 'C',
            (LanguageType::C, UnicodeTheme::Basic) => 'C',
            (LanguageType::C, UnicodeTheme::Rich) => '\u{26A1}',
            (LanguageType::C, UnicodeTheme::Fancy) => '\u{1F527}',

            (LanguageType::Java, UnicodeTheme::Minimal) => 'J',
            (LanguageType::Java, UnicodeTheme::Basic) => 'J',
            (LanguageType::Java, UnicodeTheme::Rich) => '\u{2615}',
            (LanguageType::Java, UnicodeTheme::Fancy) => '\u{2615}',

            (LanguageType::Go, UnicodeTheme::Minimal) => 'G',
            (LanguageType::Go, UnicodeTheme::Basic) => 'G',
            (LanguageType::Go, UnicodeTheme::Rich) => '\u{1F439}',
            (LanguageType::Go, UnicodeTheme::Fancy) => '\u{1F680}',

            (LanguageType::Html, UnicodeTheme::Minimal) => 'H',
            (LanguageType::Html, UnicodeTheme::Basic) => '<',
            (LanguageType::Html, UnicodeTheme::Rich) => '\u{1F310}',
            (LanguageType::Html, UnicodeTheme::Fancy) => '\u{1F4C4}',

            (LanguageType::Css, UnicodeTheme::Minimal) => 'S',
            (LanguageType::Css, UnicodeTheme::Basic) => '#',
            (LanguageType::Css, UnicodeTheme::Rich) => '\u{1F3A8}',
            (LanguageType::Css, UnicodeTheme::Fancy) => '\u{2728}',

            (LanguageType::Json, UnicodeTheme::Minimal) => '{',
            (LanguageType::Json, UnicodeTheme::Basic) => '{',
            (LanguageType::Json, UnicodeTheme::Rich) => '\u{1F4CB}',
            (LanguageType::Json, UnicodeTheme::Fancy) => '\u{1F5C2}',

            (LanguageType::Xml, UnicodeTheme::Minimal) => '<',
            (LanguageType::Xml, UnicodeTheme::Basic) => '<',
            (LanguageType::Xml, UnicodeTheme::Rich) => '\u{1F4C4}',
            (LanguageType::Xml, UnicodeTheme::Fancy) => '\u{1F5C3}',

            (LanguageType::Yaml, UnicodeTheme::Minimal) => 'Y',
            (LanguageType::Yaml, UnicodeTheme::Basic) => ':',
            (LanguageType::Yaml, UnicodeTheme::Rich) => '\u{1F4DD}',
            (LanguageType::Yaml, UnicodeTheme::Fancy) => '\u{2699}',

            (LanguageType::Toml, UnicodeTheme::Minimal) => 'T',
            (LanguageType::Toml, UnicodeTheme::Basic) => '=',
            (LanguageType::Toml, UnicodeTheme::Rich) => '\u{2699}',
            (LanguageType::Toml, UnicodeTheme::Fancy) => '\u{1F527}',

            (LanguageType::Markdown, UnicodeTheme::Minimal) => 'M',
            (LanguageType::Markdown, UnicodeTheme::Basic) => '#',
            (LanguageType::Markdown, UnicodeTheme::Rich) => '\u{1F4DD}',
            (LanguageType::Markdown, UnicodeTheme::Fancy) => '\u{1F4D6}',

            (LanguageType::Shell, UnicodeTheme::Minimal) => '$',
            (LanguageType::Shell, UnicodeTheme::Basic) => '$',
            (LanguageType::Shell, UnicodeTheme::Rich) => '\u{1F41A}',
            (LanguageType::Shell, UnicodeTheme::Fancy) => '\u{26A1}',

            (LanguageType::Sql, UnicodeTheme::Minimal) => 'Q',
            (LanguageType::Sql, UnicodeTheme::Basic) => 'Q',
            (LanguageType::Sql, UnicodeTheme::Rich) => '\u{1F5C4}',
            (LanguageType::Sql, UnicodeTheme::Fancy) => '\u{1F4BE}',

            (LanguageType::Docker, UnicodeTheme::Minimal) => 'D',
            (LanguageType::Docker, UnicodeTheme::Basic) => '\u{25A1}',
            (LanguageType::Docker, UnicodeTheme::Rich) => '\u{1F433}',
            (LanguageType::Docker, UnicodeTheme::Fancy) => '\u{1F4E6}',

            (LanguageType::Git, UnicodeTheme::Minimal) => 'G',
            (LanguageType::Git, UnicodeTheme::Basic) => '*',
            (LanguageType::Git, UnicodeTheme::Rich) => '\u{1F33F}',
            (LanguageType::Git, UnicodeTheme::Fancy) => '\u{1F500}',

            (LanguageType::Code, UnicodeTheme::Minimal) => 'C',
            (LanguageType::Code, UnicodeTheme::Basic) => '<',
            (LanguageType::Code, UnicodeTheme::Rich) => '\u{1F4BB}',
            (LanguageType::Code, UnicodeTheme::Fancy) => '\u{2328}',
        
        }
    }
}

/// ASCII lowercasing of one byte.
pub open spec fn lower_byte(b: u8) -> u8 {
    if 0x41 <= b && b <= 0x5A {
        (b + 0x20) as u8
    } else {
        b
    }
}

/// ASCII lowercasing of a byte sequence.
pub open spec fn ascii_lower(bs: Seq<u8>) -> Seq<u8> {
    bs.map_values(|b: u8| lower_byte(b))
}

/// The language a lowercased extension maps to; unknown extensions fall
/// back to the generic `Code` tag.
pub open spec fn language_for(bs: Seq<u8>) -> LanguageType {
    if bs == "rs".spec_bytes() {
        LanguageType::Rust
    } else if bs == "js".spec_bytes() || bs == "jsx".spec_bytes() || bs == "ts".spec_bytes() || bs == "tsx".spec_bytes() || bs == "mjs".spec_bytes() {
        LanguageType::JavaScript
    } else if bs == "py".spec_bytes() || bs == "pyw".spec_bytes() || bs == "pyc".spec_bytes() || bs == "pyo".spec_bytes() || bs == "pyd".spec_bytes() {
        LanguageType::Python
    } else if bs == "c".spec_bytes() || bs == "h".spec_bytes() || bs == "cpp".spec_bytes() || bs == "cxx".spec_bytes() || bs == "cc".spec_bytes() || bs == "hpp".spec_bytes() || bs == "hxx".spec_bytes() {
        LanguageType::C
    } else if bs == "java".spec_bytes() || bs == "class".spec_bytes() || bs == "jar".spec_bytes() {
        LanguageType::Java
    } else if bs == "go".spec_bytes() || bs == "mod".spec_bytes() || bs == "sum".spec_bytes() {
        LanguageType::Go
    } else if bs == "html".spec_bytes() || bs == "htm".spec_bytes() || bs == "xhtml".spec_bytes() {
        LanguageType::Html
    } else if bs == "css".spec_bytes() || bs == "scss".spec_bytes() || bs == "sass".spec_bytes() || bs == "less".spec_bytes() {
        LanguageType::Css
    } else if bs == "json".spec_bytes() || bs == "jsonc".spec_bytes() {
        LanguageType::Json
    } else if bs == "xml".spec_bytes() || bs == "xsd".spec_bytes() || bs == "xsl".spec_bytes() || bs == "xslt".spec_bytes() {
        LanguageType::Xml
    } else if bs == "yml".spec_bytes() || bs == "yaml".spec_bytes() {
        LanguageType::Yaml
    } else if bs == "toml".spec_bytes() {
        LanguageType::Toml
    } else if bs == "md".spec_bytes() || bs == "markdown".spec_bytes() || bs == "mdown".spec_bytes() || bs == "mkd".spec_bytes() || bs == "mkdn".spec_bytes() {
        LanguageType::Markdown
    } else if bs == "sh".spec_bytes() || bs == "bash".spec_bytes() || bs == "zsh".spec_bytes() || bs == "fish".spec_bytes() || bs == "csh".spec_bytes() || bs == "tcsh".spec_bytes() {
        LanguageType::Shell
    } else if bs == "sql".spec_bytes() || bs == "mysql".spec_bytes() || bs == "pgsql".spec_bytes() || bs == "sqlite".spec_bytes() {
        LanguageType::Sql
    } else if bs == "dockerfile".spec_bytes() || bs == "containerfile".spec_bytes() {
        LanguageType::Docker
    } else if bs == "gitignore".spec_bytes() || bs == "gitattributes".spec_bytes() || bs == "gitmodules".spec_bytes() {
        LanguageType::Git
    } else {
        LanguageType::Code
    }
}

/// Whether `bs` begins with an ASCII dot.
pub open spec fn starts_with_dot(bs: Seq<u8>) -> bool {
    bs.len() > 0 && bs[0] == 0x2E
}

/// Whether `bs` ends with the byte sequence `suf`.
pub open spec fn has_suffix(bs: Seq<u8>, suf: Seq<u8>) -> bool {
    bs.len() >= suf.len() && bs.subrange(bs.len() - suf.len(), bs.len() as int) == suf
}

/// The file type a filename maps to, by its leading dot, well-known
/// suffixes, and a few whole names compared case-insensitively.
pub open spec fn file_type_for(bs: Seq<u8>) -> FileType {
    if starts_with_dot(bs) {
        FileType::Hidden
    } else if has_suffix(bs, ".tmp".spec_bytes()) || has_suffix(bs, ".temp".spec_bytes()) {
        FileType::Temporary
    } else if has_suffix(bs, ".bak".spec_bytes()) || has_suffix(bs, ".backup".spec_bytes()) {
        FileType::Backup
    } else if has_suffix(bs, ".log".spec_bytes()) {
        FileType::Log
    } else if ascii_lower(bs) == "config".spec_bytes() || ascii_lower(bs)
        == "configuration".spec_bytes() || ascii_lower(bs) == "settings".spec_bytes()
        || ascii_lower(bs) == "preferences".spec_bytes() {
        FileType::Config
    } else if ascii_lower(bs) == "readme".spec_bytes() || ascii_lower(bs)
        == "readme.md".spec_bytes() || ascii_lower(bs) == "readme.txt".spec_bytes()
        || ascii_lower(bs) == "doc".spec_bytes() || ascii_lower(bs) == "docs".spec_bytes() {
        FileType::Documentation
    } else {
        FileType::File
    }
}

/// Element-wise equality of two byte slices.
fn bytes_eq(a: &[u8], b: &[u8]) -> (r: bool)
    ensures
        r == (a@ == b@),
{
    if a.len() != b.len() {
        return false;
    }
    let mut i: usize = 0;
    while i < a.len()
        invariant
            i <= a@.len(),
            a@.len() == b@.len(),
            forall|k: int| 0 <= k < i ==> a@[k] == b@[k],
        decreases a@.len() - i,
    {
        if a[i] != b[i] {
            return false;
        }
        i = i + 1;
    }
    proof {
        assert(a@ =~= b@);
    }
    true
}

/// Whether byte slice `a` ends with `suf`.
fn bytes_ends_with(a: &[u8], suf: &[u8]) -> (r: bool)
    ensures
        r == has_suffix(a@, suf@),
{
    let n = a.len();
    let m = suf.len();
    if n < m {
        return false;
    }
    let mut k: usize = 0;
    while k < m
        invariant
            k <= m,
            m <= n,
            n == a@.len(),
            m == suf@.len(),
            forall|t: int| 0 <= t < k ==> a@[n - m + t] == suf@[t],
        decreases m - k,
    {
        if a[n - m + k] != suf[k] {
            proof {
                assert(a@.subrange(n - m, n as int)[k as int] == a@[n - m + k]);
            }
            return false;
        }
        k = k + 1;
    }
    proof {
        assert(a@.subrange(n - m, n as int) =~= suf@);
    }
    true
}

/// The bytes of `s`, ASCII-lowercased.
fn lower_bytes(s: &str) -> (v: Vec<u8>)
    ensures
        v@ == ascii_lower(s.spec_bytes()),
{
    let bs = s.as_bytes();
    let mut v: Vec<u8> = Vec::new();
    let mut i: usize = 0;
    proof {
        assert(v@ =~= bs@.take(0).map_values(|b: u8| lower_byte(b)));
    }
    while i < bs.len()
        invariant
            i <= bs@.len(),
            v@ == bs@.take(i as int).map_values(|b: u8| lower_byte(b)),
        decreases bs@.len() - i,
    {
        let b = bs[i];
        if 0x41 <= b && b <= 0x5A {
            v.push(b + 0x20);
        } else {
            v.push(b);
        }
        proof {
            assert(v@ =~= bs@.take(i as int + 1).map_values(|b: u8| lower_byte(b)));
        }
        i = i + 1;
    }
    proof {
        assert(bs@.take(bs@.len() as int) =~= bs@);
    }
    v
}

/// Map a file extension to its language type, case-insensitively.
pub fn get_file_type_from_extension(extension: &str) -> (t: LanguageType)
    ensures
        t == language_for(ascii_lower(extension.spec_bytes())),
{
    let low = lower_bytes(extension);
    if bytes_eq(low.as_slice(), "rs".as_bytes()) {
        LanguageType::Rust
    } else if bytes_eq(low.as_slice(), "js".as_bytes()) || bytes_eq(low.as_slice(), "jsx".as_bytes()) || bytes_eq(low.as_slice(), "ts".as_bytes()) || bytes_eq(low.as_slice(), "tsx".as_bytes()) || bytes_eq(low.as_slice(), "mjs".as_bytes()) {
        LanguageType::JavaScript
    } else if bytes_eq(low.as_slice(), "py".as_bytes()) || bytes_eq(low.as_slice(), "pyw".as_bytes()) || bytes_eq(low.as_slice(), "pyc".as_bytes()) || bytes_eq(low.as_slice(), "pyo".as_bytes()) || bytes_eq(low.as_slice(), "pyd".as_bytes()) {
        LanguageType::Python
    } else if bytes_eq(low.as_slice(), "c".as_bytes()) || bytes_eq(low.as_slice(), "h".as_bytes()) || bytes_eq(low.as_slice(), "cpp".as_bytes()) || bytes_eq(low.as_slice(), "cxx".as_bytes()) || bytes_eq(low.as_slice(), "cc".as_bytes()) || bytes_eq(low.as_slice(), "hpp".as_bytes()) || bytes_eq(low.as_slice(), "hxx".as_bytes()) {
        LanguageType::C
    } else if bytes_eq(low.as_slice(), "java".as_bytes()) || bytes_eq(low.as_slice(), "class".as_bytes()) || bytes_eq(low.as_slice(), "jar".as_bytes()) {
        LanguageType::Java
    } else if bytes_eq(low.as_slice(), "go".as_bytes()) || bytes_eq(low.as_slice(), "mod".as_bytes()) || bytes_eq(low.as_slice(), "sum".as_bytes()) {
        LanguageType::Go
    } else if bytes_eq(low.as_slice(), "html".as_bytes()) || bytes_eq(low.as_slice(), "htm".as_bytes()) || bytes_eq(low.as_slice(), "xhtml".as_bytes()) {
        LanguageType::Html
    } else if bytes_eq(low.as_slice(), "css".as_bytes()) || bytes_eq(low.as_slice(), "scss".as_bytes()) || bytes_eq(low.as_slice(), "sass".as_bytes()) || bytes_eq(low.as_slice(), "less".as_bytes()) {
        LanguageType::Css
    } else if bytes_eq(low.as_slice(), "json".as_bytes()) || bytes_eq(low.as_slice(), "jsonc".as_bytes()) {
        LanguageType::Json
    } else if bytes_eq(low.as_slice(), "xml".as_bytes()) || bytes_eq(low.as_slice(), "xsd".as_bytes()) || bytes_eq(low.as_slice(), "xsl".as_bytes()) || bytes_eq(low.as_slice(), "xslt".as_bytes()) {
        LanguageType::Xml
    } else if bytes_eq(low.as_slice(), "yml".as_bytes()) || bytes_eq(low.as_slice(), "yaml".as_bytes()) {
        LanguageType::Yaml
    } else if bytes_eq(low.as_slice(), "toml".as_bytes()) {
        LanguageType::Toml
    } else if bytes_eq(low.as_slice(), "md".as_bytes()) || bytes_eq(low.as_slice(), "markdown".as_bytes()) || bytes_eq(low.as_slice(), "mdown".as_bytes()) || bytes_eq(low.as_slice(), "mkd".as_bytes()) || bytes_eq(low.as_slice(), "mkdn".as_bytes()) {
        LanguageType::Markdown
    } else if bytes_eq(low.as_slice(), "sh".as_bytes()) || bytes_eq(low.as_slice(), "bash".as_bytes()) || bytes_eq(low.as_slice(), "zsh".as_bytes()) || bytes_eq(low.as_slice(), "fish".as_bytes()) || bytes_eq(low.as_slice(), "csh".as_bytes()) || bytes_eq(low.as_slice(), "tcsh".as_bytes()) {
        LanguageType::Shell
    } else if bytes_eq(low.as_slice(), "sql".as_bytes()) || bytes_eq(low.as_slice(), "mysql".as_bytes()) || bytes_eq(low.as_slice(), "pgsql".as_bytes()) || bytes_eq(low.as_slice(), "sqlite".as_bytes()) {
        LanguageType::Sql
    } else if bytes_eq(low.as_slice(), "dockerfile".as_bytes()) || bytes_eq(low.as_slice(), "containerfile".as_bytes()) {
        LanguageType::Docker
    } else if bytes_eq(low.as_slice(), "gitignore".as_bytes()) || bytes_eq(low.as_slice(), "gitattributes".as_bytes()) || bytes_eq(low.as_slice(), "gitmodules".as_bytes()) {
        LanguageType::Git
    } else {
        LanguageType::Code
    }
}

/// Classify a filename by its leading dot, its suffix, or a few
/// well-known names.
pub fn get_file_type_from_filename(filename: &str) -> (t: FileType)
    ensures
        t == file_type_for(filename.spec_bytes()),
{
    let bs = filename.as_bytes();
    if bs.len() > 0 && bs[0] == 0x2E {
        FileType::Hidden
    } else if bytes_ends_with(bs, ".tmp".as_bytes()) || bytes_ends_with(bs, ".temp".as_bytes()) {
        FileType::Temporary
    } else if bytes_ends_with(bs, ".bak".as_bytes()) || bytes_ends_with(bs, ".backup".as_bytes()) {
        FileType::Backup
    } else if bytes_ends_with(bs, ".log".as_bytes()) {
        FileType::Log
    } else {
        let low = lower_bytes(filename);
        if bytes_eq(low.as_slice(), "config".as_bytes()) || bytes_eq(
            low.as_slice(),
            "configuration".as_bytes(),
        ) || bytes_eq(low.as_slice(), "settings".as_bytes()) || bytes_eq(
            low.as_slice(),
            "preferences".as_bytes(),
        ) {
            FileType::Config
        } else if bytes_eq(low.as_slice(), "readme".as_bytes()) || bytes_eq(
            low.as_slice(),
            "readme.md".as_bytes(),
        ) || bytes_eq(low.as_slice(), "readme.txt".as_bytes()) || bytes_eq(
            low.as_slice(),
            "doc".as_bytes(),
        ) || bytes_eq(low.as_slice(), "docs".as_bytes()) {
            FileType::Documentation
        } else {
            FileType::File
        }
    }
}

} // verus!
