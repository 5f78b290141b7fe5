//! General symbols and special characters for common use cases.

use vstd::prelude::*;
use crate::unicode::UnicodeProvider;
use crate::unicode::UnicodeTheme;

verus! {

/// General symbols for common UI elements and indicators.
#[derive(Debug, Clone, Copy, PartialEq, Eq)]
pub enum Symbol {
    /// Checkmark symbol - indicates success, completion, or affirmative state
    ///
    /// # Theme variants
    /// - Minimal: `v`
    /// - Basic: `\u{2713}`
    /// - Rich: `\u{2713}`
    /// - Fancy: `\u{2705}`
    Check,
    /// X mark symbol - indicates failure, error, or negative state
    ///
    /// # Theme variants
    /// - Minimal: `X`
    /// - Basic: `\u{2717}`
    /// - Rich: `\u{2716}`
    /// - Fancy: `\u{274C}`
    X,
    /// Exclamation symbol - indicates warning or important information
    ///
    /// # Theme variants
    /// - Minimal: `!`
    /// - Basic: `!`
    /// - Rich: `\u{2757}`
    /// - Fancy: `\u{2757}`
    Exclamation,
    /// Question mark symbol - indicates uncertainty or help
    ///
    /// # Theme variants
    /// - Minimal: `?`
    /// - Basic: `?`
    /// - Rich: `\u{2753}`
    /// - Fancy: `\u{2753}`
    Question,
    /// At symbol
    At,
    /// Hash/pound
    Hash,
    /// Dollar sign
    Dollar,
    /// Percent
    Percent,
    /// Ampersand
    Ampersand,
    /// Copyright
    Copyright,
    /// Trademark
    Trademark,
    /// Registered
    Registered,
}

impl UnicodeProvider for Symbol {
    open spec fn spec_char(&self, theme: UnicodeTheme) -> char {
        match (*self, theme) {
            (Symbol::Check, UnicodeTheme::Minimal) => 'v',
            (Symbol::Check, UnicodeTheme::Basic) => '\u{2713}',
            (Symbol::Check, UnicodeTheme::Rich) => '\u{2713}',
            (Symbol::Check, UnicodeTheme::Fancy) => '\u{2705}',

            (Symbol::X, UnicodeTheme::Minimal) => 'X',
            (Symbol::X, UnicodeTheme::Basic) => '\u{2717}',
            (Symbol::X, UnicodeTheme::Rich) => '\u{2716}',
            (Symbol::X, UnicodeTheme::Fancy) => '\u{274C}',

            (Symbol::Exclamation, UnicodeTheme::Minimal) => '!',
            (Symbol::Exclamation, UnicodeTheme::Basic) => '!',
            (Symbol::Exclamation, UnicodeTheme::Rich) => '\u{2757}',
            (Symbol::Exclamation, UnicodeTheme::Fancy) => '\u{2757}',

            (Symbol::Question, UnicodeTheme::Minimal) => '?',
            (Symbol::Question, UnicodeTheme::Basic) => '?',
            (Symbol::Question, UnicodeTheme::Rich) => '\u{2753}',
            (Symbol::Question, UnicodeTheme::Fancy) => '\u{2753}',

            (Symbol::At, _) => '@',
            (Symbol::Hash, _) => '#',
            (Symbol::Dollar, _) => '$',
            (Symbol::Percent, _) => '%',
            (Symbol::Ampersand, _) => '&',

            (Symbol::Copyright, UnicodeTheme::Minimal) => 'C',
            (Symbol::Copyright, UnicodeTheme::Basic) => '\u{00A9}',
            (Symbol::Copyright, UnicodeTheme::Rich) => '\u{00A9}',
            (Symbol::Copyright, UnicodeTheme::Fancy) => '\u{00A9}',

            (Symbol::Trademark, UnicodeTheme::Minimal) => 'T',
            (Symbol::Trademark, UnicodeTheme::Basic) => '\u{2122}',
            (Symbol::Trademark, UnicodeTheme::Rich) => '\u{2122}',
            (Symbol::Trademark, UnicodeTheme::Fancy) => '\u{2122}',

            (Symbol::Registered, UnicodeTheme::Minimal) => 'R',
            (Symbol::Registered, UnicodeTheme::Basic) => '\u{00AE}',
            (Symbol::Registered, UnicodeTheme::Rich) => '\u{00AE}',
            (Symbol::Registered, UnicodeTheme::Fancy) => '\u{00AE}',
        
        }
    }

    fn get_char(&self, theme: UnicodeTheme) -> (c: char)
        ensures
            c == self.spec_char(theme),
    {
        match (*self, theme) {
            (Symbol::Check, UnicodeTheme::Minimal) => 'v',
            (Symbol::Check, UnicodeTheme::Basic) => '\u{2713}',
            (Symbol::Check, UnicodeTheme::Rich) => '\u{2713}',
            (Symbol::Check, UnicodeTheme::Fancy) => '\u{2705}',

            (Symbol::X, UnicodeTheme::Minimal) => 'X',
            (Symbol::X, UnicodeTheme::Basic) => '\u{2717}',
            (Symbol::X, UnicodeTheme::Rich) => '\u{2716}',
            (Symbol::X, UnicodeTheme::Fancy) => '\u{274C}',

            (Symbol::Exclamation, UnicodeTheme::Minimal) => '!',
            (Symbol::Exclamation, UnicodeTheme::Basic) => '!',
            (Symbol::Exclamation, UnicodeTheme::Rich) => '\u{2757}',
            (Symbol::Exclamation, UnicodeTheme::Fancy) => '\u{2757}',

            (Symbol::Question, UnicodeTheme::Minimal) => '?',
            (Symbol::Question, UnicodeTheme::Basic) => '?',
            (Symbol::Question, UnicodeTheme::Rich) => '\u{2753}',
            (Symbol::Question, UnicodeTheme::Fancy) => '\u{2753}',

            (Symbol::At, _) => '@',
            (Symbol::Hash, _) => '#',
            (Symbol::Dollar, _) => '$',
            (Symbol::Percent, _) => '%',
            (Symbol::Ampersand, _) => '&',

            (Symbol::Copyright, UnicodeTheme::Minimal) => 'C',
            (Symbol::Copyright, UnicodeTheme::Basic) => '\u{00A9}',
            (Symbol::Copyright, UnicodeTheme::Rich) => '\u{00A9}',
            (Symbol::Copyright, UnicodeTheme::Fancy) => '\u{00A9}',

            (Symbol::Trademark, UnicodeTheme::Minimal) => 'T',
            (Symbol::Trademark, UnicodeTheme::Basic) => '\u{2122}',
            (Symbol::Trademark, UnicodeTheme::Rich) => '\u{2122}',
            (Symbol::Trademark, UnicodeTheme::Fancy) => '\u{2122}',

            (Symbol::Registered, UnicodeTheme::Minimal) => 'R',
            (Symbol::Registered, UnicodeTheme::Basic) => '\u{00AE}',
            (Symbol::Registered, UnicodeTheme::Rich) => '\u{00AE}',
            (Symbol::Registered, UnicodeTheme::Fancy) => '\u{00AE}',
        
        }
    }
}

} // verus!
