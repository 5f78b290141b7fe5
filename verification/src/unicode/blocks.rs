//! Block drawing characters for progress bars and fills.

use vstd::prelude::*;
use crate::unicode::UnicodeProvider;
use crate::unicode::UnicodeTheme;

verus! {

/// Block fill levels and styles.
#[derive(Debug, Clone, Copy, PartialEq, Eq)]
pub enum Block {
    /// Full block
    Full,
    /// Three quarters block
    ThreeQuarters,
    /// Half block
    Half,
    /// Quarter block
    Quarter,
    /// Eighth block
    Eighth,
    /// Upper half block
    UpperHalf,
    /// Lower half block
    LowerHalf,
    /// Left half block
    LeftHalf,
    /// Right half block
    RightHalf,
    /// Light shade
    LightShade,
    /// Medium shade
    MediumShade,
    /// Dark shade
    DarkShade,
}

impl UnicodeProvider for Block {
    open spec fn spec_char(&self, theme: UnicodeTheme) -> char {
        match (*self, theme) {
            (Block::Full, UnicodeTheme::Minimal) => '#',
            (Block::Full, UnicodeTheme::Basic) => '\u{2588}',
            (Block::Full, UnicodeTheme::Rich) => '\u{2588}',
            (Block::Full, UnicodeTheme::Fancy) => '\u{2588}',

            (Block::ThreeQuarters, UnicodeTheme::Minimal) => '#',
            (Block::ThreeQuarters, UnicodeTheme::Basic) => '\u{2589}',
            (Block::ThreeQuarters, UnicodeTheme::Rich) => '\u{2589}',
            (Block::ThreeQuarters, UnicodeTheme::Fancy) => '\u{2589}',

            (Block::Half, UnicodeTheme::Minimal) => '=',
            (Block::Half, UnicodeTheme::Basic) => '\u{258C}',
            (Block::Half, UnicodeTheme::Rich) => '\u{258C}',
            (Block::Half, UnicodeTheme::Fancy) => '\u{258C}',

            (Block::Quarter, UnicodeTheme::Minimal) => '|',
            (Block::Quarter, UnicodeTheme::Basic) => '\u{258E}',
            (Block::Quarter, UnicodeTheme::Rich) => '\u{258E}',
            (Block::Quarter, UnicodeTheme::Fancy) => '\u{258E}',

            (Block::Eighth, UnicodeTheme::Minimal) => '|',
            (Block::Eighth, UnicodeTheme::Basic) => '\u{258F}',
            (Block::Eighth, UnicodeTheme::Rich) => '\u{258F}',
            (Block::Eighth, UnicodeTheme::Fancy) => '\u{258F}',

            (Block::UpperHalf, UnicodeTheme::Minimal) => '^',
            (Block::UpperHalf, UnicodeTheme::Basic) => '\u{2580}',
            (Block::UpperHalf, UnicodeTheme::Rich) => '\u{2580}',
            (Block::UpperHalf, UnicodeTheme::Fancy) => '\u{2580}',

            (Block::LowerHalf, UnicodeTheme::Minimal) => '_',
            (Block::LowerHalf, UnicodeTheme::Basic) => '\u{2584}',
            (Block::LowerHalf, UnicodeTheme::Rich) => '\u{2584}',
            (Block::LowerHalf, UnicodeTheme::Fancy) => '\u{2584}',

            (Block::LeftHalf, UnicodeTheme::Minimal) => '|',
            (Block::LeftHalf, UnicodeTheme::Basic) => '\u{258C}',
            (Block::LeftHalf, UnicodeTheme::Rich) => '\u{258C}',
            (Block::LeftHalf, UnicodeTheme::Fancy) => '\u{258C}',

            (Block::RightHalf, UnicodeTheme::Minimal) => '|',
            (Block::RightHalf, UnicodeTheme::Basic) => '\u{2590}',
            (Block::RightHalf, UnicodeTheme::Rich) => '\u{2590}',
            (Block::RightHalf, UnicodeTheme::Fancy) => '\u{2590}',

            (Block::LightShade, UnicodeTheme::Minimal) => '.',
            (Block::LightShade, UnicodeTheme::Basic) => '\u{2591}',
            (Block::LightShade, UnicodeTheme::Rich) => '\u{2591}',
            (Block::LightShade, UnicodeTheme::Fancy) => '\u{2591}',

            (Block::MediumShade, UnicodeTheme::Minimal) => ':',
            (Block::MediumShade, UnicodeTheme::Basic) => '\u{2592}',
            (Block::MediumShade, UnicodeTheme::Rich) => '\u{2592}',
            (Block::MediumShade, UnicodeTheme::Fancy) => '\u{2592}',

            (Block::DarkShade, UnicodeTheme::Minimal) => '#',
            (Block::DarkShade, UnicodeTheme::Basic) => '\u{2593}',
            (Block::DarkShade, UnicodeTheme::Rich) => '\u{2593}',
            (Block::DarkShade, UnicodeTheme::Fancy) => '\u{2593}',
        
        }
    }

    fn get_char(&self, theme: UnicodeTheme) -> (c: char)
        ensures
            c == self.spec_char(theme),
    {
        match (*self, theme) {
            (Block::Full, UnicodeTheme::Minimal) => '#',
            (Block::Full, UnicodeTheme::Basic) => '\u{2588}',
            (Block::Full, UnicodeTheme::Rich) => '\u{2588}',
            (Block::Full, UnicodeTheme::Fancy) => '\u{2588}',

            (Block::ThreeQuarters, UnicodeTheme::Minimal) => '#',
            (Block::ThreeQuarters, UnicodeTheme::Basic) => '\u{2589}',
            (Block::ThreeQuarters, UnicodeTheme::Rich) => '\u{2589}',
            (Block::ThreeQuarters, UnicodeTheme::Fancy) => '\u{2589}',

            (Block::Half, UnicodeTheme::Minimal) => '=',
            (Block::Half, UnicodeTheme::Basic) => '\u{258C}',
            (Block::Half, UnicodeTheme::Rich) => '\u{258C}',
            (Block::Half, UnicodeTheme::Fancy) => '\u{258C}',

            (Block::Quarter, UnicodeTheme::Minimal) => '|',
            (Block::Quarter, UnicodeTheme::Basic) => '\u{258E}',
            (Block::Quarter, UnicodeTheme::Rich) => '\u{258E}',
            (Block::Quarter, UnicodeTheme::Fancy) => '\u{258E}',

            (Block::Eighth, UnicodeTheme::Minimal) => '|',
            (Block::Eighth, UnicodeTheme::Basic) => '\u{258F}',
            (Block::Eighth, UnicodeTheme::Rich) => '\u{258F}',
            (Block::Eighth, UnicodeTheme::Fancy) => '\u{258F}',

            (Block::UpperHalf, UnicodeTheme::Minimal) => '^',
            (Block::UpperHalf, UnicodeTheme::Basic) => '\u{2580}',
            (Block::UpperHalf, UnicodeTheme::Rich) => '\u{2580}',
            (Block::UpperHalf, UnicodeTheme::Fancy) => '\u{2580}',

            (Block::LowerHalf, UnicodeTheme::Minimal) => '_',
            (Block::LowerHalf, UnicodeTheme::Basic) => '\u{2584}',
            (Block::LowerHalf, UnicodeTheme::Rich) => '\u{2584}',
            (Block::LowerHalf, UnicodeTheme::Fancy) => '\u{2584}',

            (Block::LeftHalf, UnicodeTheme::Minimal) => '|',
            (Block::LeftHalf, UnicodeTheme::Basic) => '\u{258C}',
            (Block::LeftHalf, UnicodeTheme::Rich) => '\u{258C}',
            (Block::LeftHalf, UnicodeTheme::Fancy) => '\u{258C}',

            (Block::RightHalf, UnicodeTheme::Minimal) => '|',
            (Block::RightHalf, UnicodeTheme::Basic) => '\u{2590}',
            (Block::RightHalf, UnicodeTheme::Rich) => '\u{2590}',
            (Block::RightHalf, UnicodeTheme::Fancy) => '\u{2590}',

            (Block::LightShade, UnicodeTheme::Minimal) => '.',
            (Block::LightShade, UnicodeTheme::Basic) => '\u{2591}',
            (Block::LightShade, UnicodeTheme::Rich) => '\u{2591}',
            (Block::LightShade, UnicodeTheme::Fancy) => '\u{2591}',

            (Block::MediumShade, UnicodeTheme::Minimal) => ':',
            (Block::MediumShade, UnicodeTheme::Basic) => '\u{2592}',
            (Block::MediumShade, UnicodeTheme::Rich) => '\u{2592}',
            (Block::MediumShade, UnicodeTheme::Fancy) => '\u{2592}',

            (Block::DarkShade, UnicodeTheme::Minimal) => '#',
            (Block::DarkShade, UnicodeTheme::Basic) => '\u{2593}',
            (Block::DarkShade, UnicodeTheme::Rich) => '\u{2593}',
            (Block::DarkShade, UnicodeTheme::Fancy) => '\u{2593}',
        
        }
    }
}

} // verus!
