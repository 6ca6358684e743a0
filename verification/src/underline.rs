//! Headings: a message over a line of repeated characters.

use crate::line::{blank_line, Line, LineEnding, LineKind, LineView};
use crate::style_options::StyleOptions;
use crate::text::{push_repeat, repeat};
use crate::wrapping::{measure, measured, Measured, MeasuredView};
use vstd::prelude::*;
use vstd::string::*;

verus! {

/// A heading: the message, under it a line of `underline_char` that takes
/// as many characters as the message takes columns, both under the style
/// and each followed by a colour reset, and a blank line.
pub open spec fn underlined(
    message: MeasuredView,
    underline_char: char,
    style: Option<StyleOptions>,
) -> Seq<LineView> {
    seq![
        LineView {
            kind: LineKind::Body,
            text: message.text,
            style,
            reset: true,
            ending: LineEnding::Newline,
        },
        LineView {
            kind: LineKind::Underline,
            text: repeat(underline_char, message.columns),
            style,
            reset: true,
            ending: LineEnding::Newline,
        },
        blank_line(),
    ]
}

/// Makes a heading of a measured message.
pub fn underline(message: &Measured, underline_char: char, style: Option<StyleOptions>) -> (lines:
    Vec<Line>)
    ensures
        lines.deep_view() == underlined(message@, underline_char, style),
{
    let mut rule = String::new();
    push_repeat(&mut rule, underline_char, message.columns);
    assert(rule@ =~= repeat(underline_char, message@.columns));
    let mut lines: Vec<Line> = Vec::new();
    lines.push(
        Line {
            kind: LineKind::Body,
            text: message.text.clone(),
            style,
            reset: true,
            ending: LineEnding::Newline,
        },
    );
    lines.push(
        Line {
            kind: LineKind::Underline,
            text: rule,
            style,
            reset: true,
            ending: LineEnding::Newline,
        },
    );
    lines.push(Line::blank());
    assert(lines.deep_view() =~= underlined(message@, underline_char, style));
    lines
}

/// Renders a message with a line of `underline_char` under it, as long as
/// the message is wide.
pub fn render_underline_with_char(
    message: &str,
    underline_char: char,
    style_options: Option<StyleOptions>,
) -> (lines: Vec<Line>)
    ensures
        lines.deep_view() == underlined(measured(message@), underline_char, style_options),
{
    underline(&measure(String::from_str(message)), underline_char, style_options)
}

/// The underline of a heading is as long as the heading is wide, and both
/// lines are under the same style.
pub proof fn underline_matches_message(
    message: MeasuredView,
    underline_char: char,
    style: Option<StyleOptions>,
)
    ensures
        underlined(message, underline_char, style)[1].text.len() == message.columns,
        underlined(message, underline_char, style)[0].text == message.text,
        underlined(message, underline_char, style)[0].style == style,
        underlined(message, underline_char, style)[1].style == style,
{
}

} // verus!
