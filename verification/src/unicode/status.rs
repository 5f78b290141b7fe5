//! Status indicators.

use vstd::prelude::*;
use crate::unicode::UnicodeProvider;
use crate::unicode::UnicodeTheme;

verus! {

/// Operation or item status.
#[derive(Debug, Clone, Copy, PartialEq, Eq)]
pub enum Status {
    /// Online/connected
    Online,
    /// Offline/disconnected
    Offline,
    /// Busy/working
    Busy,
    /// Idle
    Idle,
    /// Error state
    Error,
    /// Warning state
    Warning,
    /// Success state
    Success,
    /// Unknown state
    Unknown,
}

impl UnicodeProvider for Status {
    open spec fn spec_char(&self, theme: UnicodeTheme) -> char {
        match (*self, theme) {
            (Status::Online, UnicodeTheme::Minimal) => '+',
            (Status::Online, UnicodeTheme::Basic) => '\u{25CF}',
            (Status::Online, UnicodeTheme::Rich) => '\u{25CF}',
            (Status::Online, UnicodeTheme::Fancy) => '\u{1F7E2}',

            (Status::Offline, UnicodeTheme::Minimal) => '-',
            (Status::Offline, UnicodeTheme::Basic) => '\u{25CB}',
            (Status::Offline, UnicodeTheme::Rich) => '\u{25CB}',
            (Status::Offline, UnicodeTheme::Fancy) => '\u{26AA}',

            (Status::Busy, UnicodeTheme::Minimal) => '*',
            (Status::Busy, UnicodeTheme::Basic) => '\u{25D0}',
            (Status::Busy, UnicodeTheme::Rich) => '\u{25D0}',
            (Status::Busy, UnicodeTheme::Fancy) => '\u{1F504}',

            (Status::Idle, UnicodeTheme::Minimal) => 'o',
            (Status::Idle, UnicodeTheme::Basic) => '\u{25EF}',
            (Status::Idle, UnicodeTheme::Rich) => '\u{25EF}',
            (Status::Idle, UnicodeTheme::Fancy) => '\u{1F4A4}',

            (Status::Error, UnicodeTheme::Minimal) => 'X',
            (Status::Error, UnicodeTheme::Basic) => '\u{2717}',
            (Status::Error, UnicodeTheme::Rich) => '\u{2717}',
            (Status::Error, UnicodeTheme::Fancy) => '\u{274C}',

            (Status::Warning, UnicodeTheme::Minimal) => '!',
            (Status::Warning, UnicodeTheme::Basic) => '\u{26A0}',
            (Status::Warning, UnicodeTheme::Rich) => '\u{26A0}',
            (Status::Warning, UnicodeTheme::Fancy) => '\u{26A0}',

            (Status::Success, UnicodeTheme::Minimal) => '+',
            (Status::Success, UnicodeTheme::Basic) => '\u{2713}',
            (Status::Success, UnicodeTheme::Rich) => '\u{2713}',
            (Status::Success, UnicodeTheme::Fancy) => '\u{2705}',

            (Status::Unknown, UnicodeTheme::Minimal) => '?',
            (Status::Unknown, UnicodeTheme::Basic) => '?',
            (Status::Unknown, UnicodeTheme::Rich) => '\u{2753}',
            (Status::Unknown, UnicodeTheme::Fancy) => '\u{2753}',
        
        }
    }

    fn get_char(&self, theme: UnicodeTheme) -> (c: char)
        ensures
            c == self.spec_char(theme),
    {
        match (*self, theme) {
            (Status::Online, UnicodeTheme::Minimal) => '+',
            (Status::Online, UnicodeTheme::Basic) => '\u{25CF}',
            (Status::Online, UnicodeTheme::Rich) => '\u{25CF}',
            (Status::Online, UnicodeTheme::Fancy) => '\u{1F7E2}',

            (Status::Offline, UnicodeTheme::Minimal) => '-',
            (Status::Offline, UnicodeTheme::Basic) => '\u{25CB}',
            (Status::Offline, UnicodeTheme::Rich) => '\u{25CB}',
            (Status::Offline, UnicodeTheme::Fancy) => '\u{26AA}',

            (Status::Busy, UnicodeTheme::Minimal) => '*',
            (Status::Busy, UnicodeTheme::Basic) => '\u{25D0}',
            (Status::Busy, UnicodeTheme::Rich) => '\u{25D0}',
            (Status::Busy, UnicodeTheme::Fancy) => '\u{1F504}',

            (Status::Idle, UnicodeTheme::Minimal) => 'o',
            (Status::Idle, UnicodeTheme::Basic) => '\u{25EF}',
            (Status::Idle, UnicodeTheme::Rich) => '\u{25EF}',
            (Status::Idle, UnicodeTheme::Fancy) => '\u{1F4A4}',

            (Status::Error, UnicodeTheme::Minimal) => 'X',
            (Status::Error, UnicodeTheme::Basic) => '\u{2717}',
            (Status::Error, UnicodeTheme::Rich) => '\u{2717}',
            (Status::Error, UnicodeTheme::Fancy) => '\u{274C}',

            (Status::Warning, UnicodeTheme::Minimal) => '!',
            (Status::Warning, UnicodeTheme::Basic) => '\u{26A0}',
            (Status::Warning, UnicodeTheme::Rich) => '\u{26A0}',
            (Status::Warning, UnicodeTheme::Fancy) => '\u{26A0}',

            (Status::Success, UnicodeTheme::Minimal) => '+',
            (Status::Success, UnicodeTheme::Basic) => '\u{2713}',
            (Status::Success, UnicodeTheme::Rich) => '\u{2713}',
            (Status::Success, UnicodeTheme::Fancy) => '\u{2705}',

            (Status::Unknown, UnicodeTheme::Minimal) => '?',
            (Status::Unknown, UnicodeTheme::Basic) => '?',
            (Status::Unknown, UnicodeTheme::Rich) => '\u{2753}',
            (Status::Unknown, UnicodeTheme::Fancy) => '\u{2753}',
        
        }
    }
}

} // verus!
