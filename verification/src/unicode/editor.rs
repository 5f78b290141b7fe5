//! Editor-specific symbols: cursor and selection markers.

use vstd::prelude::*;
use crate::unicode::UnicodeProvider;
use crate::unicode::UnicodeTheme;

verus! {

/// Cursor shapes.
#[derive(Debug, Clone, Copy, PartialEq, Eq)]
pub enum Cursor {
    /// Text cursor
    Text,
    /// Block cursor
    Block,
    /// Underline cursor
    Underline,
    /// Vertical bar cursor
    VerticalBar,
}

impl UnicodeProvider for Cursor {
    open spec fn spec_char(&self, theme: UnicodeTheme) -> char {
        match (*self, theme) {
            (Cursor::Text, UnicodeTheme::Minimal) => '|',
            (Cursor::Text, UnicodeTheme::Basic) => '\u{2502}',
            (Cursor::Text, UnicodeTheme::Rich) => '\u{2502}',
            (Cursor::Text, UnicodeTheme::Fancy) => '\u{2503}',

            (Cursor::Block, UnicodeTheme::Minimal) => '#',
            (Cursor::Block, UnicodeTheme::Basic) => '\u{2588}',
            (Cursor::Block, UnicodeTheme::Rich) => '\u{2588}',
            (Cursor::Block, UnicodeTheme::Fancy) => '\u{2588}',

            (Cursor::Underline, UnicodeTheme::Minimal) => '_',
            (Cursor::Underline, UnicodeTheme::Basic) => '\u{2581}',
            (Cursor::Underline, UnicodeTheme::Rich) => '\u{2581}',
            (Cursor::Underline, UnicodeTheme::Fancy) => '\u{2581}',

            (Cursor::VerticalBar, UnicodeTheme::Minimal) => '|',
            (Cursor::VerticalBar, UnicodeTheme::Basic) => '\u{258E}',
            (Cursor::VerticalBar, UnicodeTheme::Rich) => '\u{258E}',
            (Cursor::VerticalBar, UnicodeTheme::Fancy) => '\u{258E}',
        
        }
    }

    fn get_char(&self, theme: UnicodeTheme) -> (c: char)
        ensures
            c == self.spec_char(theme),
    {
        match (*self, theme) {
            (Cursor::Text, UnicodeTheme::Minimal) => '|',
            (Cursor::Text, UnicodeTheme::Basic) => '\u{2502}',
            (Cursor::Text, UnicodeTheme::Rich) => '\u{2502}',
            (Cursor::Text, UnicodeTheme::Fancy) => '\u{2503}',

            (Cursor::Block, UnicodeTheme::Minimal) => '#',
            (Cursor::Block, UnicodeTheme::Basic) => '\u{2588}',
            (Cursor::Block, UnicodeTheme::Rich) => '\u{2588}',
            (Cursor::Block, UnicodeTheme::Fancy) => '\u{2588}',

            (Cursor::Underline, UnicodeTheme::Minimal) => '_',
            (Cursor::Underline, UnicodeTheme::Basic) => '\u{2581}',
            (Cursor::Underline, UnicodeTheme::Rich) => '\u{2581}',
            (Cursor::Underline, UnicodeTheme::Fancy) => '\u{2581}',

            (Cursor::VerticalBar, UnicodeTheme::Minimal) => '|',
            (Cursor::VerticalBar, UnicodeTheme::Basic) => '\u{258E}',
            (Cursor::VerticalBar, UnicodeTheme::Rich) => '\u{258E}',
            (Cursor::VerticalBar, UnicodeTheme::Fancy) => '\u{258E}',
        
        }
    }
}

/// Selection markers.
#[derive(Debug, Clone, Copy, PartialEq, Eq)]
pub enum Selection {
    /// Primary selection
    Primary,
    /// Secondary selection
    Secondary,
    /// Selection start
    Start,
    /// Selection end
    End,
}

impl UnicodeProvider for Selection {
    open spec fn spec_char(&self, theme: UnicodeTheme) -> char {
        match (*self, theme) {
            (Selection::Primary, UnicodeTheme::Minimal) => '*',
            (Selection::Primary, UnicodeTheme::Basic) => '\u{25CF}',
            (Selection::Primary, UnicodeTheme::Rich) => '\u{25CF}',
            (Selection::Primary, UnicodeTheme::Fancy) => '\u{1F534}',

            (Selection::Secondary, UnicodeTheme::Minimal) => 'o',
            (Selection::Secondary, UnicodeTheme::Basic) => '\u{25CB}',
            (Selection::Secondary, UnicodeTheme::Rich) => '\u{25CB}',
            (Selection::Secondary, UnicodeTheme::Fancy) => '\u{26AA}',

            (Selection::Start, UnicodeTheme::Minimal) => '[',
            (Selection::Start, UnicodeTheme::Basic) => '\u{27E8}',
            (Selection::Start, UnicodeTheme::Rich) => '\u{27E8}',
            (Selection::Start, UnicodeTheme::Fancy) => '\u{27E8}',

            (Selection::End, UnicodeTheme::Minimal) => ']',
            (Selection::End, UnicodeTheme::Basic) => '\u{27E9}',
            (Selection::End, UnicodeTheme::Rich) => '\u{27E9}',
            (Selection::End, UnicodeTheme::Fancy) => '\u{27E9}',
        
        }
    }

    fn get_char(&self, theme: UnicodeTheme) -> (c: char)
        ensures
            c == self.spec_char(theme),
    {
        match (*self, theme) {
            (Selection::Primary, UnicodeTheme::Minimal) => '*',
            (Selection::Primary, UnicodeTheme::Basic) => '\u{25CF}',
            (Selection::Primary, UnicodeTheme::Rich) => '\u{25CF}',
            (Selection::Primary, UnicodeTheme::Fancy) => '\u{1F534}',

            (Selection::Secondary, UnicodeTheme::Minimal) => 'o',
            (Selection::Secondary, UnicodeTheme::Basic) => '\u{25CB}',
            (Selection::Secondary, UnicodeTheme::Rich) => '\u{25CB}',
            (Selection::Secondary, UnicodeTheme::Fancy) => '\u{26AA}',

            (Selection::Start, UnicodeTheme::Minimal) => '[',
            (Selection::Start, UnicodeTheme::Basic) => '\u{27E8}',
            (Selection::Start, UnicodeTheme::Rich) => '\u{27E8}',
            (Selection::Start, UnicodeTheme::Fancy) => '\u{27E8}',

            (Selection::End, UnicodeTheme::Minimal) => ']',
            (Selection::End, UnicodeTheme::Basic) => '\u{27E9}',
            (Selection::End, UnicodeTheme::Rich) => '\u{27E9}',
            (Selection::End, UnicodeTheme::Fancy) => '\u{27E9}',
        
        }
    }
}

} // verus!
