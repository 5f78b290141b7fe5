//! UI elements: borders, controls, separators and indicators.

use vstd::prelude::*;
use crate::unicode::UnicodeProvider;
use crate::unicode::UnicodeTheme;

verus! {

/// Box-drawing border pieces.
#[derive(Debug, Clone, Copy, PartialEq, Eq)]
pub enum Border {
    /// Horizontal line
    Horizontal,
    /// Vertical line
    Vertical,
    /// Top-left corner
    TopLeft,
    /// Top-right corner
    TopRight,
    /// Bottom-left corner
    BottomLeft,
    /// Bottom-right corner
    BottomRight,
    /// Cross/intersection
    Cross,
    /// T-junction up
    TeeUp,
    /// T-junction down
    TeeDown,
    /// T-junction left
    TeeLeft,
    /// T-junction right
    TeeRight,
}

impl UnicodeProvider for Border {
    open spec fn spec_char(&self, theme: UnicodeTheme) -> char {
        match (*self, theme) {
            (Border::Horizontal, UnicodeTheme::Minimal) => '-',
            (Border::Horizontal, UnicodeTheme::Basic) => '-',
            (Border::Horizontal, UnicodeTheme::Rich) => '\u{2500}',
            (Border::Horizontal, UnicodeTheme::Fancy) => '\u{2501}',

            (Border::Vertical, UnicodeTheme::Minimal) => '|',
            (Border::Vertical, UnicodeTheme::Basic) => '|',
            (Border::Vertical, UnicodeTheme::Rich) => '\u{2502}',
            (Border::Vertical, UnicodeTheme::Fancy) => '\u{2503}',

            (Border::TopLeft, UnicodeTheme::Minimal) => '+',
            (Border::TopLeft, UnicodeTheme::Basic) => '+',
            (Border::TopLeft, UnicodeTheme::Rich) => '\u{250C}',
            (Border::TopLeft, UnicodeTheme::Fancy) => '\u{250F}',

            (Border::TopRight, UnicodeTheme::Minimal) => '+',
            (Border::TopRight, UnicodeTheme::Basic) => '+',
            (Border::TopRight, UnicodeTheme::Rich) => '\u{2510}',
            (Border::TopRight, UnicodeTheme::Fancy) => '\u{2513}',

            (Border::BottomLeft, UnicodeTheme::Minimal) => '+',
            (Border::BottomLeft, UnicodeTheme::Basic) => '+',
            (Border::BottomLeft, UnicodeTheme::Rich) => '\u{2514}',
            (Border::BottomLeft, UnicodeTheme::Fancy) => '\u{2517}',

            (Border::BottomRight, UnicodeTheme::Minimal) => '+',
            (Border::BottomRight, UnicodeTheme::Basic) => '+',
            (Border::BottomRight, UnicodeTheme::Rich) => '\u{2518}',
            (Border::BottomRight, UnicodeTheme::Fancy) => '\u{251B}',

            (Border::Cross, UnicodeTheme::Minimal) => '+',
            (Border::Cross, UnicodeTheme::Basic) => '+',
            (Border::Cross, UnicodeTheme::Rich) => '\u{253C}',
            (Border::Cross, UnicodeTheme::Fancy) => '\u{254B}',

            (Border::TeeUp, UnicodeTheme::Minimal) => '+',
            (Border::TeeUp, UnicodeTheme::Basic) => '+',
            (Border::TeeUp, UnicodeTheme::Rich) => '\u{2534}',
            (Border::TeeUp, UnicodeTheme::Fancy) => '\u{253B}',

            (Border::TeeDown, UnicodeTheme::Minimal) => '+',
            (Border::TeeDown, UnicodeTheme::Basic) => '+',
            (Border::TeeDown, UnicodeTheme::Rich) => '\u{252C}',
            (Border::TeeDown, UnicodeTheme::Fancy) => '\u{2533}',

            (Border::TeeLeft, UnicodeTheme::Minimal) => '+',
            (Border::TeeLeft, UnicodeTheme::Basic) => '+',
            (Border::TeeLeft, UnicodeTheme::Rich) => '\u{2524}',
            (Border::TeeLeft, UnicodeTheme::Fancy) => '\u{252B}',

            (Border::TeeRight, UnicodeTheme::Minimal) => '+',
            (Border::TeeRight, UnicodeTheme::Basic) => '+',
            (Border::TeeRight, UnicodeTheme::Rich) => '\u{251C}',
            (Border::TeeRight, UnicodeTheme::Fancy) => '\u{2523}',
        
        }
    }

    fn get_char(&self, theme: UnicodeTheme) -> (c: char)
        ensures
            c == self.spec_char(theme),
    {
        match (*self, theme) {
            (Border::Horizontal, UnicodeTheme::Minimal) => '-',
            (Border::Horizontal, UnicodeTheme::Basic) => '-',
            (Border::Horizontal, UnicodeTheme::Rich) => '\u{2500}',
            (Border::Horizontal, UnicodeTheme::Fancy) => '\u{2501}',

            (Border::Vertical, UnicodeTheme::Minimal) => '|',
            (Border::Vertical, UnicodeTheme::Basic) => '|',
            (Border::Vertical, UnicodeTheme::Rich) => '\u{2502}',
            (Border::Vertical, UnicodeTheme::Fancy) => '\u{2503}',

            (Border::TopLeft, UnicodeTheme::Minimal) => '+',
            (Border::TopLeft, UnicodeTheme::Basic) => '+',
            (Border::TopLeft, UnicodeTheme::Rich) => '\u{250C}',
            (Border::TopLeft, UnicodeTheme::Fancy) => '\u{250F}',

            (Border::TopRight, UnicodeTheme::Minimal) => '+',
            (Border::TopRight, UnicodeTheme::Basic) => '+',
            (Border::TopRight, UnicodeTheme::Rich) => '\u{2510}',
            (Border::TopRight, UnicodeTheme::Fancy) => '\u{2513}',

            (Border::BottomLeft, UnicodeTheme::Minimal) => '+',
            (Border::BottomLeft, UnicodeTheme::Basic) => '+',
            (Border::BottomLeft, UnicodeTheme::Rich) => '\u{2514}',
            (Border::BottomLeft, UnicodeTheme::Fancy) => '\u{2517}',

            (Border::BottomRight, UnicodeTheme::Minimal) => '+',
            (Border::BottomRight, UnicodeTheme::Basic) => '+',
            (Border::BottomRight, UnicodeTheme::Rich) => '\u{2518}',
            (Border::BottomRight, UnicodeTheme::Fancy) => '\u{251B}',

            (Border::Cross, UnicodeTheme::Minimal) => '+',
            (Border::Cross, UnicodeTheme::Basic) => '+',
            (Border::Cross, UnicodeTheme::Rich) => '\u{253C}',
            (Border::Cross, UnicodeTheme::Fancy) => '\u{254B}',

            (Border::TeeUp, UnicodeTheme::Minimal) => '+',
            (Border::TeeUp, UnicodeTheme::Basic) => '+',
            (Border::TeeUp, UnicodeTheme::Rich) => '\u{2534}',
            (Border::TeeUp, UnicodeTheme::Fancy) => '\u{253B}',

            (Border::TeeDown, UnicodeTheme::Minimal) => '+',
            (Border::TeeDown, UnicodeTheme::Basic) => '+',
            (Border::TeeDown, UnicodeTheme::Rich) => '\u{252C}',
            (Border::TeeDown, UnicodeTheme::Fancy) => '\u{2533}',

            (Border::TeeLeft, UnicodeTheme::Minimal) => '+',
            (Border::TeeLeft, UnicodeTheme::Basic) => '+',
            (Border::TeeLeft, UnicodeTheme::Rich) => '\u{2524}',
            (Border::TeeLeft, UnicodeTheme::Fancy) => '\u{252B}',

            (Border::TeeRight, UnicodeTheme::Minimal) => '+',
            (Border::TeeRight, UnicodeTheme::Basic) => '+',
            (Border::TeeRight, UnicodeTheme::Rich) => '\u{251C}',
            (Border::TeeRight, UnicodeTheme::Fancy) => '\u{2523}',
        
        }
    }
}

/// Interactive control glyphs.
#[derive(Debug, Clone, Copy, PartialEq, Eq)]
pub enum Control {
    /// Checkbox unchecked
    CheckboxUnchecked,
    /// Checkbox checked
    CheckboxChecked,
    /// Radio button unselected
    RadioUnselected,
    /// Radio button selected
    RadioSelected,
    /// Button
    Button,
    /// Menu item
    MenuItem,
    /// Dropdown arrow
    DropdownArrow,
    /// Expand/collapse indicator (collapsed)
    ExpandCollapsed,
    /// Expand/collapse indicator (expanded)
    ExpandExpanded,
    /// Loading/spinner
    Loading,
    /// Close button
    Close,
    /// Minimize button
    Minimize,
    /// Maximize button
    Maximize,
}

impl UnicodeProvider for Control {
    open spec fn spec_char(&self, theme: UnicodeTheme) -> char {
        match (*self, theme) {
            (Control::CheckboxUnchecked, UnicodeTheme::Minimal) => '[',
            (Control::CheckboxUnchecked, UnicodeTheme::Basic) => '\u{2610}',
            (Control::CheckboxUnchecked, UnicodeTheme::Rich) => '\u{2610}',
            (Control::CheckboxUnchecked, UnicodeTheme::Fancy) => '\u{1F532}',

            (Control::CheckboxChecked, UnicodeTheme::Minimal) => 'X',
            (Control::CheckboxChecked, UnicodeTheme::Basic) => '\u{2611}',
            (Control::CheckboxChecked, UnicodeTheme::Rich) => '\u{2611}',
            (Control::CheckboxChecked, UnicodeTheme::Fancy) => '\u{2705}',

            (Control::RadioUnselected, UnicodeTheme::Minimal) => '(',
            (Control::RadioUnselected, UnicodeTheme::Basic) => '\u{25CB}',
            (Control::RadioUnselected, UnicodeTheme::Rich) => '\u{25CB}',
            (Control::RadioUnselected, UnicodeTheme::Fancy) => '\u{26AA}',

            (Control::RadioSelected, UnicodeTheme::Minimal) => '*',
            (Control::RadioSelected, UnicodeTheme::Basic) => '\u{25CF}',
            (Control::RadioSelected, UnicodeTheme::Rich) => '\u{25CF}',
            (Control::RadioSelected, UnicodeTheme::Fancy) => '\u{1F518}',

            (Control::Button, UnicodeTheme::Minimal) => '[',
            (Control::Button, UnicodeTheme::Basic) => '\u{25A2}',
            (Control::Button, UnicodeTheme::Rich) => '\u{25A2}',
            (Control::Button, UnicodeTheme::Fancy) => '\u{1F533}',

            (Control::MenuItem, UnicodeTheme::Minimal) => '-',
            (Control::MenuItem, UnicodeTheme::Basic) => '\u{2022}',
            (Control::MenuItem, UnicodeTheme::Rich) => '\u{25B8}',
            (Control::MenuItem, UnicodeTheme::Fancy) => '\u{1F538}',

            (Control::DropdownArrow, UnicodeTheme::Minimal) => 'v',
            (Control::DropdownArrow, UnicodeTheme::Basic) => '\u{25BC}',
            (Control::DropdownArrow, UnicodeTheme::Rich) => '\u{25BC}',
            (Control::DropdownArrow, UnicodeTheme::Fancy) => '\u{1F53D}',

            (Control::ExpandCollapsed, UnicodeTheme::Minimal) => '>',
            (Control::ExpandCollapsed, UnicodeTheme::Basic) => '\u{25B6}',
            (Control::ExpandCollapsed, UnicodeTheme::Rich) => '\u{25B6}',
            (Control::ExpandCollapsed, UnicodeTheme::Fancy) => '\u{25B6}',

            (Control::ExpandExpanded, UnicodeTheme::Minimal) => 'v',
            (Control::ExpandExpanded, UnicodeTheme::Basic) => '\u{25BC}',
            (Control::ExpandExpanded, UnicodeTheme::Rich) => '\u{25BC}',
            (Control::ExpandExpanded, UnicodeTheme::Fancy) => '\u{1F53D}',

            (Control::Loading, UnicodeTheme::Minimal) => '|',
            (Control::Loading, UnicodeTheme::Basic) => '\u{25D0}',
            (Control::Loading, UnicodeTheme::Rich) => '\u{25D0}',
            (Control::Loading, UnicodeTheme::Fancy) => '\u{1F504}',

            (Control::Close, UnicodeTheme::Minimal) => 'X',
            (Control::Close, UnicodeTheme::Basic) => '\u{2715}',
            (Control::Close, UnicodeTheme::Rich) => '\u{2715}',
            (Control::Close, UnicodeTheme::Fancy) => '\u{274C}',

            (Control::Minimize, UnicodeTheme::Minimal) => '_',
            (Control::Minimize, UnicodeTheme::Basic) => '\u{2212}',
            (Control::Minimize, UnicodeTheme::Rich) => '\u{2212}',
            (Control::Minimize, UnicodeTheme::Fancy) => '\u{2796}',

            (Control::Maximize, UnicodeTheme::Minimal) => '^',
            (Control::Maximize, UnicodeTheme::Basic) => '\u{25A1}',
            (Control::Maximize, UnicodeTheme::Rich) => '\u{25A1}',
            (Control::Maximize, UnicodeTheme::Fancy) => '\u{2B1C}',
        
        }
    }

    fn get_char(&self, theme: UnicodeTheme) -> (c: char)
        ensures
            c == self.spec_char(theme),
    {
        match (*self, theme) {
            (Control::CheckboxUnchecked, UnicodeTheme::Minimal) => '[',
            (Control::CheckboxUnchecked, UnicodeTheme::Basic) => '\u{2610}',
            (Control::CheckboxUnchecked, UnicodeTheme::Rich) => '\u{2610}',
            (Control::CheckboxUnchecked, UnicodeTheme::Fancy) => '\u{1F532}',

            (Control::CheckboxChecked, UnicodeTheme::Minimal) => 'X',
            (Control::CheckboxChecked, UnicodeTheme::Basic) => '\u{2611}',
            (Control::CheckboxChecked, UnicodeTheme::Rich) => '\u{2611}',
            (Control::CheckboxChecked, UnicodeTheme::Fancy) => '\u{2705}',

            (Control::RadioUnselected, UnicodeTheme::Minimal) => '(',
            (Control::RadioUnselected, UnicodeTheme::Basic) => '\u{25CB}',
            (Control::RadioUnselected, UnicodeTheme::Rich) => '\u{25CB}',
            (Control::RadioUnselected, UnicodeTheme::Fancy) => '\u{26AA}',

            (Control::RadioSelected, UnicodeTheme::Minimal) => '*',
            (Control::RadioSelected, UnicodeTheme::Basic) => '\u{25CF}',
            (Control::RadioSelected, UnicodeTheme::Rich) => '\u{25CF}',
            (Control::RadioSelected, UnicodeTheme::Fancy) => '\u{1F518}',

            (Control::Button, UnicodeTheme::Minimal) => '[',
            (Control::Button, UnicodeTheme::Basic) => '\u{25A2}',
            (Control::Button, UnicodeTheme::Rich) => '\u{25A2}',
            (Control::Button, UnicodeTheme::Fancy) => '\u{1F533}',

            (Control::MenuItem, UnicodeTheme::Minimal) => '-',
            (Control::MenuItem, UnicodeTheme::Basic) => '\u{2022}',
            (Control::MenuItem, UnicodeTheme::Rich) => '\u{25B8}',
            (Control::MenuItem, UnicodeTheme::Fancy) => '\u{1F538}',

            (Control::DropdownArrow, UnicodeTheme::Minimal) => 'v',
            (Control::DropdownArrow, UnicodeTheme::Basic) => '\u{25BC}',
            (Control::DropdownArrow, UnicodeTheme::Rich) => '\u{25BC}',
            (Control::DropdownArrow, UnicodeTheme::Fancy) => '\u{1F53D}',

            (Control::ExpandCollapsed, UnicodeTheme::Minimal) => '>',
            (Control::ExpandCollapsed, UnicodeTheme::Basic) => '\u{25B6}',
            (Control::ExpandCollapsed, UnicodeTheme::Rich) => '\u{25B6}',
            (Control::ExpandCollapsed, UnicodeTheme::Fancy) => '\u{25B6}',

            (Control::ExpandExpanded, UnicodeTheme::Minimal) => 'v',
            (Control::ExpandExpanded, UnicodeTheme::Basic) => '\u{25BC}',
            (Control::ExpandExpanded, UnicodeTheme::Rich) => '\u{25BC}',
            (Control::ExpandExpanded, UnicodeTheme::Fancy) => '\u{1F53D}',

            (Control::Loading, UnicodeTheme::Minimal) => '|',
            (Control::Loading, UnicodeTheme::Basic) => '\u{25D0}',
            (Control::Loading, UnicodeTheme::Rich) => '\u{25D0}',
            (Control::Loading, UnicodeTheme::Fancy) => '\u{1F504}',

            (Control::Close, UnicodeTheme::Minimal) => 'X',
            (Control::Close, UnicodeTheme::Basic) => '\u{2715}',
            (Control::Close, UnicodeTheme::Rich) => '\u{2715}',
            (Control::Close, UnicodeTheme::Fancy) => '\u{274C}',

            (Control::Minimize, UnicodeTheme::Minimal) => '_',
            (Control::Minimize, UnicodeTheme::Basic) => '\u{2212}',
            (Control::Minimize, UnicodeTheme::Rich) => '\u{2212}',
            (Control::Minimize, UnicodeTheme::Fancy) => '\u{2796}',

            (Control::Maximize, UnicodeTheme::Minimal) => '^',
            (Control::Maximize, UnicodeTheme::Basic) => '\u{25A1}',
            (Control::Maximize, UnicodeTheme::Rich) => '\u{25A1}',
            (Control::Maximize, UnicodeTheme::Fancy) => '\u{2B1C}',
        
        }
    }
}

/// Horizontal separators.
#[derive(Debug, Clone, Copy, PartialEq, Eq)]
pub enum Separator {
    /// Thin separator
    Thin,
    /// Thick separator
    Thick,
    /// Dotted separator
    Dotted,
    /// Dashed separator
    Dashed,
    /// Double separator
    Double,
    /// Wavy separator
    Wavy,
}

impl UnicodeProvider for Separator {
    open spec fn spec_char(&self, theme: UnicodeTheme) -> char {
        match (*self, theme) {
            (Separator::Thin, UnicodeTheme::Minimal) => '-',
            (Separator::Thin, UnicodeTheme::Basic) => '\u{2500}',
            (Separator::Thin, UnicodeTheme::Rich) => '\u{2500}',
            (Separator::Thin, UnicodeTheme::Fancy) => '\u{2500}',

            (Separator::Thick, UnicodeTheme::Minimal) => '=',
            (Separator::Thick, UnicodeTheme::Basic) => '\u{2501}',
            (Separator::Thick, UnicodeTheme::Rich) => '\u{2501}',
            (Separator::Thick, UnicodeTheme::Fancy) => '\u{2501}',

            (Separator::Dotted, UnicodeTheme::Minimal) => '.',
            (Separator::Dotted, UnicodeTheme::Basic) => '\u{2504}',
            (Separator::Dotted, UnicodeTheme::Rich) => '\u{2504}',
            (Separator::Dotted, UnicodeTheme::Fancy) => '\u{2508}',

            (Separator::Dashed, UnicodeTheme::Minimal) => '-',
            (Separator::Dashed, UnicodeTheme::Basic) => '\u{2505}',
            (Separator::Dashed, UnicodeTheme::Rich) => '\u{2505}',
            (Separator::Dashed, UnicodeTheme::Fancy) => '\u{2509}',

            (Separator::Double, UnicodeTheme::Minimal) => '=',
            (Separator::Double, UnicodeTheme::Basic) => '\u{2550}',
            (Separator::Double, UnicodeTheme::Rich) => '\u{2550}',
            (Separator::Double, UnicodeTheme::Fancy) => '\u{2550}',

            (Separator::Wavy, UnicodeTheme::Minimal) => '~',
            (Separator::Wavy, UnicodeTheme::Basic) => '\u{301C}',
            (Separator::Wavy, UnicodeTheme::Rich) => '\u{301C}',
            (Separator::Wavy, UnicodeTheme::Fancy) => '\u{3030}',
        
        }
    }

    fn get_char(&self, theme: UnicodeTheme) -> (c: char)
        ensures
            c == self.spec_char(theme),
    {
        match (*self, theme) {
            (Separator::Thin, UnicodeTheme::Minimal) => '-',
            (Separator::Thin, UnicodeTheme::Basic) => '\u{2500}',
            (Separator::Thin, UnicodeTheme::Rich) => '\u{2500}',
            (Separator::Thin, UnicodeTheme::Fancy) => '\u{2500}',

            (Separator::Thick, UnicodeTheme::Minimal) => '=',
            (Separator::Thick, UnicodeTheme::Basic) => '\u{2501}',
            (Separator::Thick, UnicodeTheme::Rich) => '\u{2501}',
            (Separator::Thick, UnicodeTheme::Fancy) => '\u{2501}',

            (Separator::Dotted, UnicodeTheme::Minimal) => '.',
            (Separator::Dotted, UnicodeTheme::Basic) => '\u{2504}',
            (Separator::Dotted, UnicodeTheme::Rich) => '\u{2504}',
            (Separator::Dotted, UnicodeTheme::Fancy) => '\u{2508}',

            (Separator::Dashed, UnicodeTheme::Minimal) => '-',
            (Separator::Dashed, UnicodeTheme::Basic) => '\u{2505}',
            (Separator::Dashed, UnicodeTheme::Rich) => '\u{2505}',
            (Separator::Dashed, UnicodeTheme::Fancy) => '\u{2509}',

            (Separator::Double, UnicodeTheme::Minimal) => '=',
            (Separator::Double, UnicodeTheme::Basic) => '\u{2550}',
            (Separator::Double, UnicodeTheme::Rich) => '\u{2550}',
            (Separator::Double, UnicodeTheme::Fancy) => '\u{2550}',

            (Separator::Wavy, UnicodeTheme::Minimal) => '~',
            (Separator::Wavy, UnicodeTheme::Basic) => '\u{301C}',
            (Separator::Wavy, UnicodeTheme::Rich) => '\u{301C}',
            (Separator::Wavy, UnicodeTheme::Fancy) => '\u{3030}',
        
        }
    }
}

/// State indicators.
#[derive(Debug, Clone, Copy, PartialEq, Eq)]
pub enum Indicator {
    /// Success/OK
    Success,
    /// Warning
    Warning,
    /// Error
    Error,
    /// Info
    Info,
    /// Question
    Question,
    /// Attention
    Attention,
    /// Progress
    Progress,
    /// Complete
    Complete,
    /// Pending
    Pending,
    /// Active
    Active,
    /// Inactive
    Inactive,
}

impl UnicodeProvider for Indicator {
    open spec fn spec_char(&self, theme: UnicodeTheme) -> char {
        match (*self, theme) {
            (Indicator::Success, UnicodeTheme::Minimal) => '+',
            (Indicator::Success, UnicodeTheme::Basic) => '\u{2713}',
            (Indicator::Success, UnicodeTheme::Rich) => '\u{2713}',
            (Indicator::Success, UnicodeTheme::Fancy) => '\u{2705}',

            (Indicator::Warning, UnicodeTheme::Minimal) => '!',
            (Indicator::Warning, UnicodeTheme::Basic) => '\u{26A0}',
            (Indicator::Warning, UnicodeTheme::Rich) => '\u{26A0}',
            (Indicator::Warning, UnicodeTheme::Fancy) => '\u{26A0}',

            (Indicator::Error, UnicodeTheme::Minimal) => 'X',
            (Indicator::Error, UnicodeTheme::Basic) => '\u{2717}',
            (Indicator::Error, UnicodeTheme::Rich) => '\u{2717}',
            (Indicator::Error, UnicodeTheme::Fancy) => '\u{274C}',

            (Indicator::Info, UnicodeTheme::Minimal) => 'i',
            (Indicator::Info, UnicodeTheme::Basic) => '\u{2139}',
            (Indicator::Info, UnicodeTheme::Rich) => '\u{2139}',
            (Indicator::Info, UnicodeTheme::Fancy) => '\u{2139}',

            (Indicator::Question, UnicodeTheme::Minimal) => '?',
            (Indicator::Question, UnicodeTheme::Basic) => '?',
            (Indicator::Question, UnicodeTheme::Rich) => '\u{2753}',
            (Indicator::Question, UnicodeTheme::Fancy) => '\u{2753}',

            (Indicator::Attention, UnicodeTheme::Minimal) => '*',
            (Indicator::Attention, UnicodeTheme::Basic) => '\u{2757}',
            (Indicator::Attention, UnicodeTheme::Rich) => '\u{2757}',
            (Indicator::Attention, UnicodeTheme::Fancy) => '\u{1F534}',

            (Indicator::Progress, UnicodeTheme::Minimal) => '.',
            (Indicator::Progress, UnicodeTheme::Basic) => '\u{25D0}',
            (Indicator::Progress, UnicodeTheme::Rich) => '\u{25D0}',
            (Indicator::Progress, UnicodeTheme::Fancy) => '\u{1F504}',

            (Indicator::Complete, UnicodeTheme::Minimal) => '*',
            (Indicator::Complete, UnicodeTheme::Basic) => '\u{25CF}',
            (Indicator::Complete, UnicodeTheme::Rich) => '\u{25CF}',
            (Indicator::Complete, UnicodeTheme::Fancy) => '\u{1F7E2}',

            (Indicator::Pending, UnicodeTheme::Minimal) => 'o',
            (Indicator::Pending, UnicodeTheme::Basic) => '\u{25CB}',
            (Indicator::Pending, UnicodeTheme::Rich) => '\u{25CB}',
            (Indicator::Pending, UnicodeTheme::Fancy) => '\u{26AA}',

            (Indicator::Active, UnicodeTheme::Minimal) => '*',
            (Indicator::Active, UnicodeTheme::Basic) => '\u{25CF}',
            (Indicator::Active, UnicodeTheme::Rich) => '\u{25CF}',
            (Indicator::Active, UnicodeTheme::Fancy) => '\u{1F7E2}',

            (Indicator::Inactive, UnicodeTheme::Minimal) => 'o',
            (Indicator::Inactive, UnicodeTheme::Basic) => '\u{25CB}',
            (Indicator::Inactive, UnicodeTheme::Rich) => '\u{25CB}',
            (Indicator::Inactive, UnicodeTheme::Fancy) => '\u{26AA}',
        
        }
    }

    fn get_char(&self, theme: UnicodeTheme) -> (c: char)
        ensures
            c == self.spec_char(theme),
    {
        match (*self, theme) {
            (Indicator::Success, UnicodeTheme::Minimal) => '+',
            (Indicator::Success, UnicodeTheme::Basic) => '\u{2713}',
            (Indicator::Success, UnicodeTheme::Rich) => '\u{2713}',
            (Indicator::Success, UnicodeTheme::Fancy) => '\u{2705}',

            (Indicator::Warning, UnicodeTheme::Minimal) => '!',
            (Indicator::Warning, UnicodeTheme::Basic) => '\u{26A0}',
            (Indicator::Warning, UnicodeTheme::Rich) => '\u{26A0}',
            (Indicator::Warning, UnicodeTheme::Fancy) => '\u{26A0}',

            (Indicator::Error, UnicodeTheme::Minimal) => 'X',
            (Indicator::Error, UnicodeTheme::Basic) => '\u{2717}',
            (Indicator::Error, UnicodeTheme::Rich) => '\u{2717}',
            (Indicator::Error, UnicodeTheme::Fancy) => '\u{274C}',

            (Indicator::Info, UnicodeTheme::Minimal) => 'i',
            (Indicator::Info, UnicodeTheme::Basic) => '\u{2139}',
            (Indicator::Info, UnicodeTheme::Rich) => '\u{2139}',
            (Indicator::Info, UnicodeTheme::Fancy) => '\u{2139}',

            (Indicator::Question, UnicodeTheme::Minimal) => '?',
            (Indicator::Question, UnicodeTheme::Basic) => '?',
            (Indicator::Question, UnicodeTheme::Rich) => '\u{2753}',
            (Indicator::Question, UnicodeTheme::Fancy) => '\u{2753}',

            (Indicator::Attention, UnicodeTheme::Minimal) => '*',
            (Indicator::Attention, UnicodeTheme::Basic) => '\u{2757}',
            (Indicator::Attention, UnicodeTheme::Rich) => '\u{2757}',
            (Indicator::Attention, UnicodeTheme::Fancy) => '\u{1F534}',

            (Indicator::Progress, UnicodeTheme::Minimal) => '.',
            (Indicator::Progress, UnicodeTheme::Basic) => '\u{25D0}',
            (Indicator::Progress, UnicodeTheme::Rich) => '\u{25D0}',
            (Indicator::Progress, UnicodeTheme::Fancy) => '\u{1F504}',

            (Indicator::Complete, UnicodeTheme::Minimal) => '*',
            (Indicator::Complete, UnicodeTheme::Basic) => '\u{25CF}',
            (Indicator::Complete, UnicodeTheme::Rich) => '\u{25CF}',
            (Indicator::Complete, UnicodeTheme::Fancy) => '\u{1F7E2}',

            (Indicator::Pending, UnicodeTheme::Minimal) => 'o',
            (Indicator::Pending, UnicodeTheme::Basic) => '\u{25CB}',
            (Indicator::Pending, UnicodeTheme::Rich) => '\u{25CB}',
            (Indicator::Pending, UnicodeTheme::Fancy) => '\u{26AA}',

            (Indicator::Active, UnicodeTheme::Minimal) => '*',
            (Indicator::Active, UnicodeTheme::Basic) => '\u{25CF}',
            (Indicator::Active, UnicodeTheme::Rich) => '\u{25CF}',
            (Indicator::Active, UnicodeTheme::Fancy) => '\u{1F7E2}',

            (Indicator::Inactive, UnicodeTheme::Minimal) => 'o',
            (Indicator::Inactive, UnicodeTheme::Basic) => '\u{25CB}',
            (Indicator::Inactive, UnicodeTheme::Rich) => '\u{25CB}',
            (Indicator::Inactive, UnicodeTheme::Fancy) => '\u{26AA}',
        
        }
    }
}

} // verus!
