//! Directional arrows for navigation, flow and indicators.

use vstd::prelude::*;
use crate::unicode::UnicodeProvider;
use crate::unicode::UnicodeTheme;

verus! {

/// Arrow directions.
#[derive(Debug, Clone, Copy, PartialEq, Eq)]
pub enum Arrow {
    /// Up arrow
    Up,
    /// Down arrow
    Down,
    /// Left arrow
    Left,
    /// Right arrow
    Right,
    /// Up-left diagonal
    UpLeft,
    /// Up-right diagonal
    UpRight,
    /// Down-left diagonal
    DownLeft,
    /// Down-right diagonal
    DownRight,
    /// Double up arrow
    DoubleUp,
    /// Double down arrow
    DoubleDown,
    /// Double left arrow
    DoubleLeft,
    /// Double right arrow
    DoubleRight,
    /// Curved left arrow
    CurvedLeft,
    /// Curved right arrow
    CurvedRight,
    /// Return/enter arrow
    Return,
    /// Refresh/reload arrow
    Refresh,
}

impl UnicodeProvider for Arrow {
    open spec fn spec_char(&self, theme: UnicodeTheme) -> char {
        match (*self, theme) {
            (Arrow::Up, UnicodeTheme::Minimal) => '^',
            (Arrow::Up, UnicodeTheme::Basic) => '\u{2191}',
            (Arrow::Up, UnicodeTheme::Rich) => '\u{2191}',
            (Arrow::Up, UnicodeTheme::Fancy) => '\u{2B06}',

            (Arrow::Down, UnicodeTheme::Minimal) => 'v',
            (Arrow::Down, UnicodeTheme::Basic) => '\u{2193}',
            (Arrow::Down, UnicodeTheme::Rich) => '\u{2193}',
            (Arrow::Down, UnicodeTheme::Fancy) => '\u{2B07}',

            (Arrow::Left, UnicodeTheme::Minimal) => '<',
            (Arrow::Left, UnicodeTheme::Basic) => '\u{2190}',
            (Arrow::Left, UnicodeTheme::Rich) => '\u{2190}',
            (Arrow::Left, UnicodeTheme::Fancy) => '\u{2B05}',

            (Arrow::Right, UnicodeTheme::Minimal) => '>',
            (Arrow::Right, UnicodeTheme::Basic) => '\u{2192}',
            (Arrow::Right, UnicodeTheme::Rich) => '\u{2192}',
            (Arrow::Right, UnicodeTheme::Fancy) => '\u{27A1}',

            (Arrow::UpLeft, UnicodeTheme::Minimal) => '\\',
            (Arrow::UpLeft, UnicodeTheme::Basic) => '\u{2196}',
            (Arrow::UpLeft, UnicodeTheme::Rich) => '\u{2196}',
            (Arrow::UpLeft, UnicodeTheme::Fancy) => '\u{2196}',

            (Arrow::UpRight, UnicodeTheme::Minimal) => '/',
            (Arrow::UpRight, UnicodeTheme::Basic) => '\u{2197}',
            (Arrow::UpRight, UnicodeTheme::Rich) => '\u{2197}',
            (Arrow::UpRight, UnicodeTheme::Fancy) => '\u{2197}',

            (Arrow::DownLeft, UnicodeTheme::Minimal) => '/',
            (Arrow::DownLeft, UnicodeTheme::Basic) => '\u{2199}',
            (Arrow::DownLeft, UnicodeTheme::Rich) => '\u{2199}',
            (Arrow::DownLeft, UnicodeTheme::Fancy) => '\u{2199}',

            (Arrow::DownRight, UnicodeTheme::Minimal) => '\\',
            (Arrow::DownRight, UnicodeTheme::Basic) => '\u{2198}',
            (Arrow::DownRight, UnicodeTheme::Rich) => '\u{2198}',
            (Arrow::DownRight, UnicodeTheme::Fancy) => '\u{2198}',

            (Arrow::DoubleUp, UnicodeTheme::Minimal) => '^',
            (Arrow::DoubleUp, UnicodeTheme::Basic) => '\u{21D1}',
            (Arrow::DoubleUp, UnicodeTheme::Rich) => '\u{21D1}',
            (Arrow::DoubleUp, UnicodeTheme::Fancy) => '\u{23EB}',

            (Arrow::DoubleDown, UnicodeTheme::Minimal) => 'v',
            (Arrow::DoubleDown, UnicodeTheme::Basic) => '\u{21D3}',
            (Arrow::DoubleDown, UnicodeTheme::Rich) => '\u{21D3}',
            (Arrow::DoubleDown, UnicodeTheme::Fancy) => '\u{23EC}',

            (Arrow::DoubleLeft, UnicodeTheme::Minimal) => '<',
            (Arrow::DoubleLeft, UnicodeTheme::Basic) => '\u{21D0}',
            (Arrow::DoubleLeft, UnicodeTheme::Rich) => '\u{21D0}',
            (Arrow::DoubleLeft, UnicodeTheme::Fancy) => '\u{23EA}',

            (Arrow::DoubleRight, UnicodeTheme::Minimal) => '>',
            (Arrow::DoubleRight, UnicodeTheme::Basic) => '\u{21D2}',
            (Arrow::DoubleRight, UnicodeTheme::Rich) => '\u{21D2}',
            (Arrow::DoubleRight, UnicodeTheme::Fancy) => '\u{23E9}',

            (Arrow::CurvedLeft, UnicodeTheme::Minimal) => '<',
            (Arrow::CurvedLeft, UnicodeTheme::Basic) => '\u{21B0}',
            (Arrow::CurvedLeft, UnicodeTheme::Rich) => '\u{21B0}',
            (Arrow::CurvedLeft, UnicodeTheme::Fancy) => '\u{21B0}',

            (Arrow::CurvedRight, UnicodeTheme::Minimal) => '>',
            (Arrow::CurvedRight, UnicodeTheme::Basic) => '\u{21B1}',
            (Arrow::CurvedRight, UnicodeTheme::Rich) => '\u{21B1}',
            (Arrow::CurvedRight, UnicodeTheme::Fancy) => '\u{21B1}',

            (Arrow::Return, UnicodeTheme::Minimal) => '\\',
            (Arrow::Return, UnicodeTheme::Basic) => '\u{21B5}',
            (Arrow::Return, UnicodeTheme::Rich) => '\u{21B5}',
            (Arrow::Return, UnicodeTheme::Fancy) => '\u{23CE}',

            (Arrow::Refresh, UnicodeTheme::Minimal) => 'R',
            (Arrow::Refresh, UnicodeTheme::Basic) => '\u{21BB}',
            (Arrow::Refresh, UnicodeTheme::Rich) => '\u{21BB}',
            (Arrow::Refresh, UnicodeTheme::Fancy) => '\u{1F504}',
        
        }
    }

    fn get_char(&self, theme: UnicodeTheme) -> (c: char)
        ensures
            c == self.spec_char(theme),
    {
        match (*self, theme) {
            (Arrow::Up, UnicodeTheme::Minimal) => '^',
            (Arrow::Up, UnicodeTheme::Basic) => '\u{2191}',
            (Arrow::Up, UnicodeTheme::Rich) => '\u{2191}',
            (Arrow::Up, UnicodeTheme::Fancy) => '\u{2B06}',

            (Arrow::Down, UnicodeTheme::Minimal) => 'v',
            (Arrow::Down, UnicodeTheme::Basic) => '\u{2193}',
            (Arrow::Down, UnicodeTheme::Rich) => '\u{2193}',
            (Arrow::Down, UnicodeTheme::Fancy) => '\u{2B07}',

            (Arrow::Left, UnicodeTheme::Minimal) => '<',
            (Arrow::Left, UnicodeTheme::Basic) => '\u{2190}',
            (Arrow::Left, UnicodeTheme::Rich) => '\u{2190}',
            (Arrow::Left, UnicodeTheme::Fancy) => '\u{2B05}',

            (Arrow::Right, UnicodeTheme::Minimal) => '>',
            (Arrow::Right, UnicodeTheme::Basic) => '\u{2192}',
            (Arrow::Right, UnicodeTheme::Rich) => '\u{2192}',
            (Arrow::Right, UnicodeTheme::Fancy) => '\u{27A1}',

            (Arrow::UpLeft, UnicodeTheme::Minimal) => '\\',
            (Arrow::UpLeft, UnicodeTheme::Basic) => '\u{2196}',
            (Arrow::UpLeft, UnicodeTheme::Rich) => '\u{2196}',
            (Arrow::UpLeft, UnicodeTheme::Fancy) => '\u{2196}',

            (Arrow::UpRight, UnicodeTheme::Minimal) => '/',
            (Arrow::UpRight, UnicodeTheme::Basic) => '\u{2197}',
            (Arrow::UpRight, UnicodeTheme::Rich) => '\u{2197}',
            (Arrow::UpRight, UnicodeTheme::Fancy) => '\u{2197}',

            (Arrow::DownLeft, UnicodeTheme::Minimal) => '/',
            (Arrow::DownLeft, UnicodeTheme::Basic) => '\u{2199}',
            (Arrow::DownLeft, UnicodeTheme::Rich) => '\u{2199}',
            (Arrow::DownLeft, UnicodeTheme::Fancy) => '\u{2199}',

            (Arrow::DownRight, UnicodeTheme::Minimal) => '\\',
            (Arrow::DownRight, UnicodeTheme::Basic) => '\u{2198}',
            (Arrow::DownRight, UnicodeTheme::Rich) => '\u{2198}',
            (Arrow::DownRight, UnicodeTheme::Fancy) => '\u{2198}',

            (Arrow::DoubleUp, UnicodeTheme::Minimal) => '^',
            (Arrow::DoubleUp, UnicodeTheme::Basic) => '\u{21D1}',
            (Arrow::DoubleUp, UnicodeTheme::Rich) => '\u{21D1}',
            (Arrow::DoubleUp, UnicodeTheme::Fancy) => '\u{23EB}',

            (Arrow::DoubleDown, UnicodeTheme::Minimal) => 'v',
            (Arrow::DoubleDown, UnicodeTheme::Basic) => '\u{21D3}',
            (Arrow::DoubleDown, UnicodeTheme::Rich) => '\u{21D3}',
            (Arrow::DoubleDown, UnicodeTheme::Fancy) => '\u{23EC}',

            (Arrow::DoubleLeft, UnicodeTheme::Minimal) => '<',
            (Arrow::DoubleLeft, UnicodeTheme::Basic) => '\u{21D0}',
            (Arrow::DoubleLeft, UnicodeTheme::Rich) => '\u{21D0}',
            (Arrow::DoubleLeft, UnicodeTheme::Fancy) => '\u{23EA}',

            (Arrow::DoubleRight, UnicodeTheme::Minimal) => '>',
            (Arrow::DoubleRight, UnicodeTheme::Basic) => '\u{21D2}',
            (Arrow::DoubleRight, UnicodeTheme::Rich) => '\u{21D2}',
            (Arrow::DoubleRight, UnicodeTheme::Fancy) => '\u{23E9}',

            (Arrow::CurvedLeft, UnicodeTheme::Minimal) => '<',
            (Arrow::CurvedLeft, UnicodeTheme::Basic) => '\u{21B0}',
            (Arrow::CurvedLeft, UnicodeTheme::Rich) => '\u{21B0}',
            (Arrow::CurvedLeft, UnicodeTheme::Fancy) => '\u{21B0}',

            (Arrow::CurvedRight, UnicodeTheme::Minimal) => '>',
            (Arrow::CurvedRight, UnicodeTheme::Basic) => '\u{21B1}',
            (Arrow::CurvedRight, UnicodeTheme::Rich) => '\u{21B1}',
            (Arrow::CurvedRight, UnicodeTheme::Fancy) => '\u{21B1}',

            (Arrow::Return, UnicodeTheme::Minimal) => '\\',
            (Arrow::Return, UnicodeTheme::Basic) => '\u{21B5}',
            (Arrow::Return, UnicodeTheme::Rich) => '\u{21B5}',
            (Arrow::Return, UnicodeTheme::Fancy) => '\u{23CE}',

            (Arrow::Refresh, UnicodeTheme::Minimal) => 'R',
            (Arrow::Refresh, UnicodeTheme::Basic) => '\u{21BB}',
            (Arrow::Refresh, UnicodeTheme::Rich) => '\u{21BB}',
            (Arrow::Refresh, UnicodeTheme::Fancy) => '\u{1F504}',
        
        }
    }
}

/// Navigation arrows.
#[derive(Debug, Clone, Copy, PartialEq, Eq)]
pub enum Navigation {
    /// First/beginning
    First,
    /// Previous
    Previous,
    /// Next
    Next,
    /// Last/end
    Last,
    /// Home
    Home,
    /// End
    End,
    /// Page up
    PageUp,
    /// Page down
    PageDown,
    /// Back
    Back,
    /// Forward
    Forward,
}

impl UnicodeProvider for Navigation {
    open spec fn spec_char(&self, theme: UnicodeTheme) -> char {
        match (*self, theme) {
            (Navigation::First, UnicodeTheme::Minimal) => '<',
            (Navigation::First, UnicodeTheme::Basic) => '\u{21E4}',
            (Navigation::First, UnicodeTheme::Rich) => '\u{21E4}',
            (Navigation::First, UnicodeTheme::Fancy) => '\u{23EE}',

            (Navigation::Previous, UnicodeTheme::Minimal) => '<',
            (Navigation::Previous, UnicodeTheme::Basic) => '\u{25C0}',
            (Navigation::Previous, UnicodeTheme::Rich) => '\u{25C0}',
            (Navigation::Previous, UnicodeTheme::Fancy) => '\u{23EA}',

            (Navigation::Next, UnicodeTheme::Minimal) => '>',
            (Navigation::Next, UnicodeTheme::Basic) => '\u{25B6}',
            (Navigation::Next, UnicodeTheme::Rich) => '\u{25B6}',
            (Navigation::Next, UnicodeTheme::Fancy) => '\u{23E9}',

            (Navigation::Last, UnicodeTheme::Minimal) => '>',
            (Navigation::Last, UnicodeTheme::Basic) => '\u{21E5}',
            (Navigation::Last, UnicodeTheme::Rich) => '\u{21E5}',
            (Navigation::Last, UnicodeTheme::Fancy) => '\u{23ED}',

            (Navigation::Home, UnicodeTheme::Minimal) => 'H',
            (Navigation::Home, UnicodeTheme::Basic) => '\u{2302}',
            (Navigation::Home, UnicodeTheme::Rich) => '\u{2302}',
            (Navigation::Home, UnicodeTheme::Fancy) => '\u{1F3E0}',

            (Navigation::End, UnicodeTheme::Minimal) => 'E',
            (Navigation::End, UnicodeTheme::Basic) => '\u{231D}',
            (Navigation::End, UnicodeTheme::Rich) => '\u{231D}',
            (Navigation::End, UnicodeTheme::Fancy) => '\u{1F51A}',

            (Navigation::PageUp, UnicodeTheme::Minimal) => '^',
            (Navigation::PageUp, UnicodeTheme::Basic) => '\u{21DE}',
            (Navigation::PageUp, UnicodeTheme::Rich) => '\u{21DE}',
            (Navigation::PageUp, UnicodeTheme::Fancy) => '\u{1F4C4}',

            (Navigation::PageDown, UnicodeTheme::Minimal) => 'v',
            (Navigation::PageDown, UnicodeTheme::Basic) => '\u{21DF}',
            (Navigation::PageDown, UnicodeTheme::Rich) => '\u{21DF}',
            (Navigation::PageDown, UnicodeTheme::Fancy) => '\u{1F4C4}',

            (Navigation::Back, UnicodeTheme::Minimal) => '<',
            (Navigation::Back, UnicodeTheme::Basic) => '\u{2B05}',
            (Navigation::Back, UnicodeTheme::Rich) => '\u{2B05}',
            (Navigation::Back, UnicodeTheme::Fancy) => '\u{1F519}',

            (Navigation::Forward, UnicodeTheme::Minimal) => '>',
            (Navigation::Forward, UnicodeTheme::Basic) => '\u{27A1}',
            (Navigation::Forward, UnicodeTheme::Rich) => '\u{27A1}',
            (Navigation::Forward, UnicodeTheme::Fancy) => '\u{1F51C}',
        
        }
    }

    fn get_char(&self, theme: UnicodeTheme) -> (c: char)
        ensures
            c == self.spec_char(theme),
    {
        match (*self, theme) {
            (Navigation::First, UnicodeTheme::Minimal) => '<',
            (Navigation::First, UnicodeTheme::Basic) => '\u{21E4}',
            (Navigation::First, UnicodeTheme::Rich) => '\u{21E4}',
            (Navigation::First, UnicodeTheme::Fancy) => '\u{23EE}',

            (Navigation::Previous, UnicodeTheme::Minimal) => '<',
            (Navigation::Previous, UnicodeTheme::Basic) => '\u{25C0}',
            (Navigation::Previous, UnicodeTheme::Rich) => '\u{25C0}',
            (Navigation::Previous, UnicodeTheme::Fancy) => '\u{23EA}',

            (Navigation::Next, UnicodeTheme::Minimal) => '>',
            (Navigation::Next, UnicodeTheme::Basic) => '\u{25B6}',
            (Navigation::Next, UnicodeTheme::Rich) => '\u{25B6}',
            (Navigation::Next, UnicodeTheme::Fancy) => '\u{23E9}',

            (Navigation::Last, UnicodeTheme::Minimal) => '>',
            (Navigation::Last, UnicodeTheme::Basic) => '\u{21E5}',
            (Navigation::Last, UnicodeTheme::Rich) => '\u{21E5}',
            (Navigation::Last, UnicodeTheme::Fancy) => '\u{23ED}',

            (Navigation::Home, UnicodeTheme::Minimal) => 'H',
            (Navigation::Home, UnicodeTheme::Basic) => '\u{2302}',
            (Navigation::Home, UnicodeTheme::Rich) => '\u{2302}',
            (Navigation::Home, UnicodeTheme::Fancy) => '\u{1F3E0}',

            (Navigation::End, UnicodeTheme::Minimal) => 'E',
            (Navigation::End, UnicodeTheme::Basic) => '\u{231D}',
            (Navigation::End, UnicodeTheme::Rich) => '\u{231D}',
            (Navigation::End, UnicodeTheme::Fancy) => '\u{1F51A}',

            (Navigation::PageUp, UnicodeTheme::Minimal) => '^',
            (Navigation::PageUp, UnicodeTheme::Basic) => '\u{21DE}',
            (Navigation::PageUp, UnicodeTheme::Rich) => '\u{21DE}',
            (Navigation::PageUp, UnicodeTheme::Fancy) => '\u{1F4C4}',

            (Navigation::PageDown, UnicodeTheme::Minimal) => 'v',
            (Navigation::PageDown, UnicodeTheme::Basic) => '\u{21DF}',
            (Navigation::PageDown, UnicodeTheme::Rich) => '\u{21DF}',
            (Navigation::PageDown, UnicodeTheme::Fancy) => '\u{1F4C4}',

            (Navigation::Back, UnicodeTheme::Minimal) => '<',
            (Navigation::Back, UnicodeTheme::Basic) => '\u{2B05}',
            (Navigation::Back, UnicodeTheme::Rich) => '\u{2B05}',
            (Navigation::Back, UnicodeTheme::Fancy) => '\u{1F519}',

            (Navigation::Forward, UnicodeTheme::Minimal) => '>',
            (Navigation::Forward, UnicodeTheme::Basic) => '\u{27A1}',
            (Navigation::Forward, UnicodeTheme::Rich) => '\u{27A1}',
            (Navigation::Forward, UnicodeTheme::Fancy) => '\u{1F51C}',
        
        }
    }
}

} // verus!
