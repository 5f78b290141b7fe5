//! Geometric shapes.

use vstd::prelude::*;
use crate::unicode::UnicodeProvider;
use crate::unicode::UnicodeTheme;

verus! {

/// Basic geometric shapes.
#[derive(Debug, Clone, Copy, PartialEq, Eq)]
pub enum Shape {
    /// Circle
    Circle,
    /// Square
    Square,
    /// Triangle
    Triangle,
    /// Diamond
    Diamond,
    /// Star
    Star,
    /// Heart
    Heart,
    /// Plus
    Plus,
    /// Cross
    Cross,
    /// Dot
    Dot,
    /// Bullet
    Bullet,
}

impl UnicodeProvider for Shape {
    open spec fn spec_char(&self, theme: UnicodeTheme) -> char {
        match (*self, theme) {
            (Shape::Circle, UnicodeTheme::Minimal) => 'o',
            (Shape::Circle, UnicodeTheme::Basic) => '\u{25CB}',
            (Shape::Circle, UnicodeTheme::Rich) => '\u{25CF}',
            (Shape::Circle, UnicodeTheme::Fancy) => '\u{1F534}',

            (Shape::Square, UnicodeTheme::Minimal) => '#',
            (Shape::Square, UnicodeTheme::Basic) => '\u{25A1}',
            (Shape::Square, UnicodeTheme::Rich) => '\u{25A0}',
            (Shape::Square, UnicodeTheme::Fancy) => '\u{1F7E6}',

            (Shape::Triangle, UnicodeTheme::Minimal) => '^',
            (Shape::Triangle, UnicodeTheme::Basic) => '\u{25B3}',
            (Shape::Triangle, UnicodeTheme::Rich) => '\u{25B2}',
            (Shape::Triangle, UnicodeTheme::Fancy) => '\u{1F53A}',

            (Shape::Diamond, UnicodeTheme::Minimal) => '<',
            (Shape::Diamond, UnicodeTheme::Basic) => '\u{25C7}',
            (Shape::Diamond, UnicodeTheme::Rich) => '\u{25C6}',
            (Shape::Diamond, UnicodeTheme::Fancy) => '\u{1F48E}',

            (Shape::Star, UnicodeTheme::Minimal) => '*',
            (Shape::Star, UnicodeTheme::Basic) => '\u{2606}',
            (Shape::Star, UnicodeTheme::Rich) => '\u{2605}',
            (Shape::Star, UnicodeTheme::Fancy) => '\u{2B50}',

            (Shape::Heart, UnicodeTheme::Minimal) => '<',
            (Shape::Heart, UnicodeTheme::Basic) => '\u{2661}',
            (Shape::Heart, UnicodeTheme::Rich) => '\u{2665}',
            (Shape::Heart, UnicodeTheme::Fancy) => '\u{2764}',

            (Shape::Plus, UnicodeTheme::Minimal) => '+',
            (Shape::Plus, UnicodeTheme::Basic) => '+',
            (Shape::Plus, UnicodeTheme::Rich) => '\u{271A}',
            (Shape::Plus, UnicodeTheme::Fancy) => '\u{2795}',

            (Shape::Cross, UnicodeTheme::Minimal) => 'x',
            (Shape::Cross, UnicodeTheme::Basic) => '\u{2715}',
            (Shape::Cross, UnicodeTheme::Rich) => '\u{2716}',
            (Shape::Cross, UnicodeTheme::Fancy) => '\u{274C}',

            (Shape::Dot, UnicodeTheme::Minimal) => '.',
            (Shape::Dot, UnicodeTheme::Basic) => '\u{2022}',
            (Shape::Dot, UnicodeTheme::Rich) => '\u{25CF}',
            (Shape::Dot, UnicodeTheme::Fancy) => '\u{1F534}',

            (Shape::Bullet, UnicodeTheme::Minimal) => '*',
            (Shape::Bullet, UnicodeTheme::Basic) => '\u{2022}',
            (Shape::Bullet, UnicodeTheme::Rich) => '\u{25CF}',
            (Shape::Bullet, UnicodeTheme::Fancy) => '\u{1F538}',
        
        }
    }

    fn get_char(&self, theme: UnicodeTheme) -> (c: char)
        ensures
            c == self.spec_char(theme),
    {
        match (*self, theme) {
            (Shape::Circle, UnicodeTheme::Minimal) => 'o',
            (Shape::Circle, UnicodeTheme::Basic) => '\u{25CB}',
            (Shape::Circle, UnicodeTheme::Rich) => '\u{25CF}',
            (Shape::Circle, UnicodeTheme::Fancy) => '\u{1F534}',

            (Shape::Square, UnicodeTheme::Minimal) => '#',
            (Shape::Square, UnicodeTheme::Basic) => '\u{25A1}',
            (Shape::Square, UnicodeTheme::Rich) => '\u{25A0}',
            (Shape::Square, UnicodeTheme::Fancy) => '\u{1F7E6}',

            (Shape::Triangle, UnicodeTheme::Minimal) => '^',
            (Shape::Triangle, UnicodeTheme::Basic) => '\u{25B3}',
            (Shape::Triangle, UnicodeTheme::Rich) => '\u{25B2}',
            (Shape::Triangle, UnicodeTheme::Fancy) => '\u{1F53A}',

            (Shape::Diamond, UnicodeTheme::Minimal) => '<',
            (Shape::Diamond, UnicodeTheme::Basic) => '\u{25C7}',
            (Shape::Diamond, UnicodeTheme::Rich) => '\u{25C6}',
            (Shape::Diamond, UnicodeTheme::Fancy) => '\u{1F48E}',

            (Shape::Star, UnicodeTheme::Minimal) => '*',
            (Shape::Star, UnicodeTheme::Basic) => '\u{2606}',
            (Shape::Star, UnicodeTheme::Rich) => '\u{2605}',
            (Shape::Star, UnicodeTheme::Fancy) => '\u{2B50}',

            (Shape::Heart, UnicodeTheme::Minimal) => '<',
            (Shape::Heart, UnicodeTheme::Basic) => '\u{2661}',
            (Shape::Heart, UnicodeTheme::Rich) => '\u{2665}',
            (Shape::Heart, UnicodeTheme::Fancy) => '\u{2764}',

            (Shape::Plus, UnicodeTheme::Minimal) => '+',
            (Shape::Plus, UnicodeTheme::Basic) => '+',
            (Shape::Plus, UnicodeTheme::Rich) => '\u{271A}',
            (Shape::Plus, UnicodeTheme::Fancy) => '\u{2795}',

            (Shape::Cross, UnicodeTheme::Minimal) => 'x',
            (Shape::Cross, UnicodeTheme::Basic) => '\u{2715}',
            (Shape::Cross, UnicodeTheme::Rich) => '\u{2716}',
            (Shape::Cross, UnicodeTheme::Fancy) => '\u{274C}',

            (Shape::Dot, UnicodeTheme::Minimal) => '.',
            (Shape::Dot, UnicodeTheme::Basic) => '\u{2022}',
            (Shape::Dot, UnicodeTheme::Rich) => '\u{25CF}',
            (Shape::Dot, UnicodeTheme::Fancy) => '\u{1F534}',

            (Shape::Bullet, UnicodeTheme::Minimal) => '*',
            (Shape::Bullet, UnicodeTheme::Basic) => '\u{2022}',
            (Shape::Bullet, UnicodeTheme::Rich) => '\u{25CF}',
            (Shape::Bullet, UnicodeTheme::Fancy) => '\u{1F538}',
        
        }
    }
}

} // verus!
