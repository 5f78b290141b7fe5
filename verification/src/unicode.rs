//! Categorized Unicode characters for consistent visual design,
//! together with the security analysis of arbitrary text.

pub mod arrows;
pub mod blocks;
pub mod editor;
pub mod file_types;
pub mod git;
pub mod security;
pub mod shapes;
pub mod status;
pub mod symbols;
pub mod ui;

use vstd::prelude::*;

verus! {

/// Character theme selecting how rich a glyph each symbol maps to.
#[derive(Debug, Clone, Copy, PartialEq, Eq)]
pub enum UnicodeTheme {
    /// Minimal ASCII-compatible characters
    Minimal,
    /// Basic Unicode symbols
    Basic,
    /// Rich Unicode with full symbol set
    Rich,
    /// Fancy decorative Unicode
    Fancy,
}

impl Default for UnicodeTheme {
    /// The default theme is `Rich`.
    fn default() -> (t: UnicodeTheme)
        ensures
            t == UnicodeTheme::Rich,
    {
        UnicodeTheme::Rich
    }
}

/// The character a string rendering falls back to: the character itself
/// when it is printable ASCII, a question mark otherwise.
pub open spec fn fallback_char(c: char) -> char {
    if 0x20 <= c as u32 && c as u32 <= 0x7E {
        c
    } else {
        '?'
    }
}

/// Provider of themed characters, implemented by every symbol category.
///
/// `spec_char` is the table itself, stated once as the meaning of the
/// type; `get_char` returns exactly that character.
pub trait UnicodeProvider: Sized {
    /// The character this symbol maps to under the given theme.
    spec fn spec_char(&self, theme: UnicodeTheme) -> char;

    /// Get character for the given theme.
    fn get_char(&self, theme: UnicodeTheme) -> (c: char)
        ensures
            c == self.spec_char(theme),
    ;

    /// Get a string representation for the given theme: the character's
    /// one-character string when it is printable ASCII, `"?"` otherwise.
    fn get_str(&self, theme: UnicodeTheme) -> (s: &'static str)
        ensures
            s@.len() == 1,
            s@[0] == fallback_char(self.spec_char(theme)),
    {
        let c = self.get_char(theme);
        proof {
            reveal_strlit(" ");
            reveal_strlit("!");
            reveal_strlit("\"");
            reveal_strlit("#");
            reveal_strlit("$");
            reveal_strlit("%");
            reveal_strlit("&");
            reveal_strlit("'");
            reveal_strlit("(");
            reveal_strlit(")");
            reveal_strlit("*");
            reveal_strlit("+");
            reveal_strlit(",");
            reveal_strlit("-");
            reveal_strlit(".");
            reveal_strlit("/");
            reveal_strlit("0");
            reveal_strlit("1");
            reveal_strlit("2");
            reveal_strlit("3");
            reveal_strlit("4");
            reveal_strlit("5");
            reveal_strlit("6");
            reveal_strlit("7");
            reveal_strlit("8");
            reveal_strlit("9");
            reveal_strlit(":");
            reveal_strlit(";");
            reveal_strlit("<");
            reveal_strlit("=");
            reveal_strlit(">");
            reveal_strlit("?");
            reveal_strlit("@");
            reveal_strlit("A");
            reveal_strlit("B");
            reveal_strlit("C");
            reveal_strlit("D");
            reveal_strlit("E");
            reveal_strlit("F");
            reveal_strlit("G");
            reveal_strlit("H");
            reveal_strlit("I");
            reveal_strlit("J");
            reveal_strlit("K");
            reveal_strlit("L");
            reveal_strlit("M");
            reveal_strlit("N");
            reveal_strlit("O");
            reveal_strlit("P");
            reveal_strlit("Q");
            reveal_strlit("R");
            reveal_strlit("S");
            reveal_strlit("T");
            reveal_strlit("U");
            reveal_strlit("V");
            reveal_strlit("W");
            reveal_strlit("X");
            reveal_strlit("Y");
            reveal_strlit("Z");
            reveal_strlit("[");
            reveal_strlit("\\");
            reveal_strlit("]");
            reveal_strlit("^");
            reveal_strlit("_");
            reveal_strlit("`");
            reveal_strlit("a");
            reveal_strlit("b");
            reveal_strlit("c");
            reveal_strlit("d");
            reveal_strlit("e");
            reveal_strlit("f");
            reveal_strlit("g");
            reveal_strlit("h");
            reveal_strlit("i");
            reveal_strlit("j");
            reveal_strlit("k");
            reveal_strlit("l");
            reveal_strlit("m");
            reveal_strlit("n");
            reveal_strlit("o");
            reveal_strlit("p");
            reveal_strlit("q");
            reveal_strlit("r");
            reveal_strlit("s");
            reveal_strlit("t");
            reveal_strlit("u");
            reveal_strlit("v");
            reveal_strlit("w");
            reveal_strlit("x");
            reveal_strlit("y");
            reveal_strlit("z");
            reveal_strlit("{");
            reveal_strlit("|");
            reveal_strlit("}");
            reveal_strlit("~");
            reveal_strlit("?");
        }
        match c {
            ' ' => " ",
            '!' => "!",
            '"' => "\"",
            '#' => "#",
            '$' => "$",
            '%' => "%",
            '&' => "&",
            '\'' => "'",
            '(' => "(",
            ')' => ")",
            '*' => "*",
            '+' => "+",
            ',' => ",",
            '-' => "-",
            '.' => ".",
            '/' => "/",
            '0' => "0",
            '1' => "1",
            '2' => "2",
            '3' => "3",
            '4' => "4",
            '5' => "5",
            '6' => "6",
            '7' => "7",
            '8' => "8",
            '9' => "9",
            ':' => ":",
            ';' => ";",
            '<' => "<",
            '=' => "=",
            '>' => ">",
            '?' => "?",
            '@' => "@",
            'A' => "A",
            'B' => "B",
            'C' => "C",
            'D' => "D",
            'E' => "E",
            'F' => "F",
            'G' => "G",
            'H' => "H",
            'I' => "I",
            'J' => "J",
            'K' => "K",
            'L' => "L",
            'M' => "M",
            'N' => "N",
            'O' => "O",
            'P' => "P",
            'Q' => "Q",
            'R' => "R",
            'S' => "S",
            'T' => "T",
            'U' => "U",
            'V' => "V",
            'W' => "W",
            'X' => "X",
            'Y' => "Y",
            'Z' => "Z",
            '[' => "[",
            '\\' => "\\",
            ']' => "]",
            '^' => "^",
            '_' => "_",
            '`' => "`",
            'a' => "a",
            'b' => "b",
            'c' => "c",
            'd' => "d",
            'e' => "e",
            'f' => "f",
            'g' => "g",
            'h' => "h",
            'i' => "i",
            'j' => "j",
            'k' => "k",
            'l' => "l",
            'm' => "m",
            'n' => "n",
            'o' => "o",
            'p' => "p",
            'q' => "q",
            'r' => "r",
            's' => "s",
            't' => "t",
            'u' => "u",
            'v' => "v",
            'w' => "w",
            'x' => "x",
            'y' => "y",
            'z' => "z",
            '{' => "{",
            '|' => "|",
            '}' => "}",
            '~' => "~",
            _ => "?",
        }
    }
}

/// The override stored for a key, if any: the earliest pair holding it.
pub open spec fn override_for(ovs: Seq<(String, char)>, key: Seq<char>) -> Option<char>
    decreases ovs.len(),
{
    if ovs.len() == 0 {
        None
    } else if ovs[0].0@ == key {
        Some(ovs[0].1)
    } else {
        override_for(ovs.drop_first(), key)
    }
}

/// The character a configuration resolves a symbol to: an override for
/// the key when one is stored, else the themed character, replaced by the
/// `Minimal` character when fallback is on and the themed one is not
/// ASCII.
pub open spec fn resolved_char<T: UnicodeProvider>(
    cfg: UnicodeConfig,
    provider: T,
    okey: Option<Seq<char>>,
) -> char {
    let over = match okey {
        Some(k) => override_for(cfg.overrides@, k),
        None => None,
    };
    match over {
        Some(oc) => oc,
        None => {
            let ch = provider.spec_char(cfg.theme);
            if cfg.use_fallback && ch as u32 > 0x7F {
                provider.spec_char(UnicodeTheme::Minimal)
            } else {
                ch
            }
        },
    }
}

/// Unicode character configuration: a theme, an ASCII fallback switch,
/// and per-key character overrides.
///
/// Overrides are kept as key-value pairs; the earliest pair for a key is
/// the one in force, and [`UnicodeConfig::with_override`] places the new
/// pair first.
#[derive(Debug, Clone)]
pub struct UnicodeConfig {
    /// Current theme
    pub theme: UnicodeTheme,
    /// Whether to use fallback ASCII characters
    pub use_fallback: bool,
    /// Custom character overrides
    pub overrides: Vec<(String, char)>,
}

impl Default for UnicodeConfig {
    /// The default configuration: `Rich` theme, no fallback, no overrides.
    fn default() -> (c: UnicodeConfig)
        ensures
            c.theme == UnicodeTheme::Rich,
            !c.use_fallback,
            c.overrides@.len() == 0,
    {
        UnicodeConfig { theme: UnicodeTheme::Rich, use_fallback: false, overrides: Vec::new() }
    }
}

/// Character-by-character string equality.
fn str_eq(a: &str, b: &str) -> (r: bool)
    ensures
        r == (a@ == b@),
{
    let n = a.unicode_len();
    if n != b.unicode_len() {
        return false;
    }
    let mut i: usize = 0;
    while i < n
        invariant
            i <= n,
            n == a@.len(),
            n == b@.len(),
            forall|k: int| 0 <= k < i ==> a@[k] == b@[k],
        decreases n - i,
    {
        if a.get_char(i) != b.get_char(i) {
            return false;
        }
        i = i + 1;
    }
    proof {
        assert(a@ =~= b@);
    }
    true
}

impl UnicodeConfig {
    /// Create a new configuration with the given theme.
    pub fn with_theme(theme: UnicodeTheme) -> (c: UnicodeConfig)
        ensures
            c.theme == theme,
            !c.use_fallback,
            c.overrides@.len() == 0,
    {
        UnicodeConfig { theme, use_fallback: false, overrides: Vec::new() }
    }

    /// Enable fallback mode.
    pub fn with_fallback(self) -> (c: UnicodeConfig)
        ensures
            c.theme == self.theme,
            c.use_fallback,
            c.overrides == self.overrides,
    {
        UnicodeConfig { use_fallback: true, ..self }
    }

    /// Add a character override for a key; it takes effect immediately
    /// and shadows any earlier override for the same key.
    pub fn with_override(self, key: &str, character: char) -> (c: UnicodeConfig)
        ensures
            c.theme == self.theme,
            c.use_fallback == self.use_fallback,
            override_for(c.overrides@, key@) == Some(character),
            forall|k2: Seq<char>|
                k2 != key@ ==> #[trigger] override_for(c.overrides@, k2) == override_for(
                    self.overrides@,
                    k2,
                ),
    {
        let mut overrides = self.overrides;
        overrides.insert(0, (key.to_owned(), character));
        proof {
            assert(overrides@.drop_first() =~= self.overrides@);
        }
        UnicodeConfig { theme: self.theme, use_fallback: self.use_fallback, overrides }
    }

    /// The override stored for a key, if any.
    pub fn override_char(&self, key: &str) -> (r: Option<char>)
        ensures
            r == override_for(self.overrides@, key@),
    {
        let n = self.overrides.len();
        let mut i: usize = 0;
        proof {
            assert(self.overrides@.skip(0) =~= self.overrides@);
        }
        while i < n
            invariant
                i <= n,
                n == self.overrides@.len(),
                override_for(self.overrides@, key@) == override_for(
                    self.overrides@.skip(i as int),
                    key@,
                ),
            decreases n - i,
        {
            proof {
                assert(self.overrides@.skip(i as int)[0] == self.overrides@[i as int]);
                assert(self.overrides@.skip(i as int).drop_first() =~= self.overrides@.skip(
                    i as int + 1,
                ));
            }
            let pair = &self.overrides[i];
            if str_eq(pair.0.as_str(), key) {
                return Some(pair.1);
            }
            i = i + 1;
        }
        proof {
            assert(self.overrides@.skip(n as int).len() == 0);
        }
        None
    }

    /// Get the character for a symbol with this configuration applied:
    /// overrides first, then the themed character with optional ASCII
    /// fallback.
    pub fn get_char<T: UnicodeProvider>(&self, provider: &T, key: Option<&str>) -> (c: char)
        ensures
            c == resolved_char(
                *self,
                *provider,
                match key {
                    Some(k) => Some(k@),
                    None => None,
                },
            ),
    {
        // check for an override first
        if let Some(k) = key {
            if let Some(oc) = self.override_char(k) {
                return oc;
            }
        }
        let ch = provider.get_char(self.theme);
        // apply fallback if needed
        if self.use_fallback && (ch as u32) > 0x7F {
            provider.get_char(UnicodeTheme::Minimal)
        } else {
            ch
        }
    }
}

} // verus!
