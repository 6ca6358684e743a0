//! Lines of output: text under one style, with what ends the line.

use crate::style_options::StyleOptions;
use vstd::prelude::*;
use vstd::string::*;

verus! {

/// What a line is there for.
#[derive(Clone, Copy, Debug, PartialEq, Eq, Structural)]
pub enum LineKind {
    /// An empty, unstyled line before or after a block.
    Blank,
    /// The full-width line above or below the message of a padded block.
    Padding,
    /// The full-width line between two paragraphs of a message.
    Separator,
    /// A line of the message itself.
    Body,
    /// The line of repeated characters under a heading.
    Underline,
}

/// What ends a line.
#[derive(Clone, Copy, Debug, PartialEq, Eq, Structural)]
pub enum LineEnding {
    /// A line feed.
    Newline,
    /// A carriage return and a line feed.
    CarriageReturnNewline,
}

/// One line to write: its text under its style, then a colour reset where
/// `reset` is set, then its ending.
#[derive(Clone, Debug, PartialEq, Eq)]
pub struct Line {
    pub kind: LineKind,
    pub text: String,
    pub style: Option<StyleOptions>,
    pub reset: bool,
    pub ending: LineEnding,
}

/// A `Line` with its text as a sequence of characters.
pub struct LineView {
    pub kind: LineKind,
    pub text: Seq<char>,
    pub style: Option<StyleOptions>,
    pub reset: bool,
    pub ending: LineEnding,
}

impl View for Line {
    type V = LineView;

    open spec fn view(&self) -> LineView {
        LineView {
            kind: self.kind,
            text: self.text@,
            style: self.style,
            reset: self.reset,
            ending: self.ending,
        }
    }
}

impl DeepView for Line {
    type V = LineView;

    open spec fn deep_view(&self) -> LineView {
        self@
    }
}

/// The empty, unstyled line.
pub open spec fn blank_line() -> LineView {
    LineView {
        kind: LineKind::Blank,
        text: Seq::empty(),
        style: None,
        reset: false,
        ending: LineEnding::Newline,
    }
}

impl Line {
    /// The empty, unstyled line.
    pub fn blank() -> (line: Line)
        ensures
            line@ == blank_line(),
    {
        Line {
            kind: LineKind::Blank,
            text: String::new(),
            style: None,
            reset: false,
            ending: LineEnding::Newline,
        }
    }
}

} // verus!
