//! Colours and the style of a piece of text.

use vstd::prelude::*;

verus! {

/// A terminal colour, named as terminals name their palette; `Rgb` and
/// `AnsiValue` carry their numbers.
#[derive(Clone, Copy, Debug, PartialEq, Eq, Structural)]
pub enum Color {
    Reset,
    Black,
    DarkGrey,
    Red,
    DarkRed,
    Green,
    DarkGreen,
    Yellow,
    DarkYellow,
    Blue,
    DarkBlue,
    Magenta,
    DarkMagenta,
    Cyan,
    DarkCyan,
    White,
    Grey,
    Rgb { r: u8, g: u8, b: u8 },
    AnsiValue(u8),
}

/// The colours of a piece of text; `None` leaves a colour as the terminal
/// has it.
#[derive(Clone, Copy, Debug, PartialEq, Eq)]
pub struct StyleOptions {
    pub foreground: Option<Color>,
    pub background: Option<Color>,
}

impl Default for StyleOptions {
    fn default() -> (style: Self)
        ensures
            style.foreground is None,
            style.background is None,
    {
        StyleOptions { foreground: None, background: None }
    }
}

} // verus!
