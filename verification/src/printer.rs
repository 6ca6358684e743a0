//! The printer: one function for each kind of output, each returning what
//! is to be written.

use crate::block::{block_lines, render_block, wrap_width, wrap_width_of};
use crate::block_options::{BlockOptions, BlockOptionsView};
use crate::line::{Line, LineEnding, LineKind, LineView};
use crate::messages::Messages;
use crate::prompt::{
    choice_start, confirm_answer, confirm_decide, entries_of, outcome_of, Choice, ChoiceOutcome,
    Key,
};
use crate::span::Span;
use crate::style_options::{Color, StyleOptions};
use crate::table::{table_lines, table_of, Table};
use crate::underline::{render_underline_with_char, underlined};
use crate::wrapping::{measured, wrap, wrapped};
use vstd::prelude::*;
use vstd::string::*;

verus! {

/// The entry point of the library. It holds the one setting that depends
/// on the output device: whether the last column of the terminal is left
/// free, for consoles that move the cursor to the next line once the last
/// column is written.
pub struct RusticPrint {
    pub reserve_last_column: bool,
}

/// Black on green under the label `OK`, padded.
pub open spec fn success_options() -> BlockOptionsView {
    BlockOptionsView {
        block_type: Some("OK"@),
        style: Some(
            StyleOptions { foreground: Some(Color::Black), background: Some(Color::DarkGreen) },
        ),
        prefix: " "@,
        padding: true,
    }
}

/// Grey on red under the label `CAUTION`, behind ` ! `, padded.
pub open spec fn caution_options() -> BlockOptionsView {
    BlockOptionsView {
        block_type: Some("CAUTION"@),
        style: Some(
            StyleOptions { foreground: Some(Color::Grey), background: Some(Color::DarkRed) },
        ),
        prefix: " ! "@,
        padding: true,
    }
}

/// Grey on red under the label `ERROR`, padded.
pub open spec fn error_options() -> BlockOptionsView {
    BlockOptionsView {
        block_type: Some("ERROR"@),
        style: Some(
            StyleOptions { foreground: Some(Color::Grey), background: Some(Color::DarkRed) },
        ),
        prefix: " "@,
        padding: true,
    }
}

/// No label and no colours, behind ` // `, not padded.
pub open spec fn comment_options() -> BlockOptionsView {
    BlockOptionsView { block_type: None, style: None, prefix: " // "@, padding: false }
}

/// Black on yellow under the label `WARNING`, padded.
pub open spec fn warning_options() -> BlockOptionsView {
    BlockOptionsView {
        block_type: Some("WARNING"@),
        style: Some(
            StyleOptions { foreground: Some(Color::Black), background: Some(Color::DarkYellow) },
        ),
        prefix: " "@,
        padding: true,
    }
}

/// Green text under the label `INFO`, padded.
pub open spec fn info_options() -> BlockOptionsView {
    BlockOptionsView {
        block_type: Some("INFO"@),
        style: Some(StyleOptions { foreground: Some(Color::Green), background: None }),
        prefix: " "@,
        padding: true,
    }
}

/// Yellow text under the label `NOTE`, behind ` ! `, not padded.
pub open spec fn note_options() -> BlockOptionsView {
    BlockOptionsView {
        block_type: Some("NOTE"@),
        style: Some(StyleOptions { foreground: Some(Color::DarkYellow), background: None }),
        prefix: " ! "@,
        padding: false,
    }
}

/// What follows an answer to a free prompt.
#[derive(Clone, Debug, PartialEq, Eq)]
pub enum AskStep {
    /// The answer stands.
    Accepted(String),
    /// The answer was refused: the lines say why, and the prompt is shown
    /// again.
    Rejected(Vec<Line>),
}

/// An `AskStep` with its text as sequences of characters.
pub enum AskStepView {
    Accepted(Seq<char>),
    Rejected(Seq<LineView>),
}

impl View for AskStep {
    type V = AskStepView;

    open spec fn view(&self) -> AskStepView {
        match self {
            AskStep::Accepted(answer) => AskStepView::Accepted(answer@),
            AskStep::Rejected(lines) => AskStepView::Rejected(lines.deep_view()),
        }
    }
}

/// The style of headings: dark green text.
pub open spec fn heading_style() -> Option<StyleOptions> {
    Some(StyleOptions { foreground: Some(Color::DarkGreen), background: None })
}

/// A line of plain text, ended by a line feed.
pub open spec fn plain_line(text: Seq<char>) -> LineView {
    LineView {
        kind: LineKind::Body,
        text,
        style: None,
        reset: false,
        ending: LineEnding::Newline,
    }
}

/// A list: each item on a line of its own, after `* `.
pub open spec fn listing_lines(items: Seq<Seq<char>>) -> Seq<LineView> {
    Seq::new(items.len(), |i: int| plain_line(seq!['*', ' '] + items[i]))
}

/// The width at which plain text is wrapped: one column less than the
/// terminal has, 119 where its width is not known.
pub open spec fn text_width(terminal_width: Option<usize>) -> nat {
    match terminal_width {
        Some(width) => if width > 0 {
            (width - 1) as nat
        } else {
            0
        },
        None => 119,
    }
}

/// Texts as lines of plain text.
pub open spec fn plain_lines(texts: Seq<Seq<char>>) -> Seq<LineView> {
    Seq::new(texts.len(), |i: int| plain_line(texts[i]))
}

/// Plain text: the message wrapped one column short of the terminal's
/// width, every line behind one space.
pub open spec fn text_lines(message: Seq<char>, terminal_width: Option<usize>) -> Seq<LineView> {
    plain_lines(wrapped(message, text_width(terminal_width), seq![' '], seq![' ']))
}

/// Makes lines of plain text.
pub fn make_plain_lines(texts: Vec<String>) -> (lines: Vec<Line>)
    ensures
        lines.deep_view() == plain_lines(texts.deep_view()),
{
    let mut lines: Vec<Line> = Vec::new();
    let mut i: usize = 0;
    while i < texts.len()
        invariant
            i <= texts.len(),
            lines.len() == i,
            forall|k: int| 0 <= k < i ==> lines[k]@ == plain_line(texts[k]@),
        decreases texts.len() - i,
    {
        lines.push(make_plain_line(texts[i].clone()));
        i = i + 1;
    }
    assert(lines.deep_view() =~= plain_lines(texts.deep_view()));
    lines
}

/// Makes a line of plain text.
fn make_plain_line(text: String) -> (line: Line)
    ensures
        line@ == plain_line(text@),
{
    Line { kind: LineKind::Body, text, style: None, reset: false, ending: LineEnding::Newline }
}

/// Builds the options of a preset from its parts.
fn preset(
    label: Option<&str>,
    foreground: Option<Color>,
    background: Option<Color>,
    prefix: &str,
    padding: bool,
) -> (options: BlockOptions)
    ensures
        options@ == (BlockOptionsView {
            block_type: match label {
                Some(name) => Some(name@),
                None => None,
            },
            style: if foreground is Some || background is Some {
                Some(StyleOptions { foreground, background })
            } else {
                None
            },
            prefix: prefix@,
            padding,
        }),
{
    BlockOptions {
        block_type: match label {
            Some(name) => Some(String::from_str(name)),
            None => None,
        },
        style: if foreground.is_some() || background.is_some() {
            Some(StyleOptions { foreground, background })
        } else {
            None
        },
        prefix: String::from_str(prefix),
        padding,
    }
}

impl RusticPrint {
    /// A printer that uses every column of the terminal.
    pub fn new() -> (printer: RusticPrint)
        ensures
            !printer.reserve_last_column,
    {
        RusticPrint { reserve_last_column: false }
    }

    /// The width at which this printer wraps on a terminal of the given
    /// width (`None` where the width is not known).
    pub open spec fn width_on(&self, terminal_width: Option<usize>) -> nat {
        wrap_width_of(terminal_width, self.reserve_last_column)
    }

    /// Renders a message as a block drawn by `block_options`.
    pub fn block(
        &self,
        messages: Messages,
        block_options: BlockOptions,
        terminal_width: Option<usize>,
    ) -> (lines: Vec<Line>)
        ensures
            lines.deep_view() == block_lines(
                messages.segments(),
                block_options@,
                self.width_on(terminal_width),
            ),
    {
        render_block(
            &messages,
            &block_options,
            wrap_width(terminal_width, self.reserve_last_column),
        )
    }

    /// Renders a success block.
    pub fn success(&self, messages: Messages, terminal_width: Option<usize>) -> (lines: Vec<Line>)
        ensures
            lines.deep_view() == block_lines(
                messages.segments(),
                success_options(),
                self.width_on(terminal_width),
            ),
    {
        let options = preset(Some("OK"), Some(Color::Black), Some(Color::DarkGreen), " ", true);
        self.block(messages, options, terminal_width)
    }

    /// Renders a caution block.
    pub fn caution(&self, messages: Messages, terminal_width: Option<usize>) -> (lines: Vec<Line>)
        ensures
            lines.deep_view() == block_lines(
                messages.segments(),
                caution_options(),
                self.width_on(terminal_width),
            ),
    {
        let options = preset(Some("CAUTION"), Some(Color::Grey), Some(Color::DarkRed), " ! ", true);
        self.block(messages, options, terminal_width)
    }

    /// Renders an error block.
    pub fn error(&self, messages: Messages, terminal_width: Option<usize>) -> (lines: Vec<Line>)
        ensures
            lines.deep_view() == block_lines(
                messages.segments(),
                error_options(),
                self.width_on(terminal_width),
            ),
    {
        let options = preset(Some("ERROR"), Some(Color::Grey), Some(Color::DarkRed), " ", true);
        self.block(messages, options, terminal_width)
    }

    /// Renders a comment block.
    pub fn comment(&self, messages: Messages, terminal_width: Option<usize>) -> (lines: Vec<Line>)
        ensures
            lines.deep_view() == block_lines(
                messages.segments(),
                comment_options(),
                self.width_on(terminal_width),
            ),
    {
        let options = preset(None, None, None, " // ", false);
        self.block(messages, options, terminal_width)
    }

    /// Renders a warning block.
    pub fn warning(&self, messages: Messages, terminal_width: Option<usize>) -> (lines: Vec<Line>)
        ensures
            lines.deep_view() == block_lines(
                messages.segments(),
                warning_options(),
                self.width_on(terminal_width),
            ),
    {
        let options = preset(
            Some("WARNING"),
            Some(Color::Black),
            Some(Color::DarkYellow),
            " ",
            true,
        );
        self.block(messages, options, terminal_width)
    }

    /// Renders an informational block.
    pub fn info(&self, messages: Messages, terminal_width: Option<usize>) -> (lines: Vec<Line>)
        ensures
            lines.deep_view() == block_lines(
                messages.segments(),
                info_options(),
                self.width_on(terminal_width),
            ),
    {
        let options = preset(Some("INFO"), Some(Color::Green), None, " ", true);
        self.block(messages, options, terminal_width)
    }

    /// Renders a note block.
    pub fn note(&self, messages: Messages, terminal_width: Option<usize>) -> (lines: Vec<Line>)
        ensures
            lines.deep_view() == block_lines(
                messages.segments(),
                note_options(),
                self.width_on(terminal_width),
            ),
    {
        let options = preset(Some("NOTE"), Some(Color::DarkYellow), None, " ! ", false);
        self.block(messages, options, terminal_width)
    }

    /// Renders a message with a line of `underline_char` under it.
    pub fn underline_with_char(
        &self,
        message: &str,
        underline_char: char,
        style_options: Option<StyleOptions>,
    ) -> (lines: Vec<Line>)
        ensures
            lines.deep_view() == underlined(measured(message@), underline_char, style_options),
    {
        render_underline_with_char(message, underline_char, style_options)
    }

    /// Renders a title: dark green, underlined with `=`.
    pub fn title(&self, message: &str) -> (lines: Vec<Line>)
        ensures
            lines.deep_view() == underlined(measured(message@), '=', heading_style()),
    {
        self.underline_with_char(
            message,
            '=',
            Some(StyleOptions { foreground: Some(Color::DarkGreen), background: None }),
        )
    }

    /// Renders a section header: dark green, underlined with `-`.
    pub fn section(&self, message: &str) -> (lines: Vec<Line>)
        ensures
            lines.deep_view() == underlined(measured(message@), '-', heading_style()),
    {
        self.underline_with_char(
            message,
            '-',
            Some(StyleOptions { foreground: Some(Color::DarkGreen), background: None }),
        )
    }

    /// Renders a list, one item to a line.
    pub fn listing(&self, items: Vec<String>) -> (lines: Vec<Line>)
        ensures
            lines.deep_view() == listing_lines(items.deep_view()),
    {
        let mut lines: Vec<Line> = Vec::new();
        let mut i: usize = 0;
        while i < items.len()
            invariant
                i <= items.len(),
                lines.len() == i,
                forall|k: int| 0 <= k < i ==> lines[k]@ == plain_line(seq!['*', ' '] + items[k]@),
            decreases items.len() - i,
        {
            let mut text = String::new();
            text.push('*');
            text.push(' ');
            text.append(items[i].as_str());
            assert(text@ =~= seq!['*', ' '] + items[i as int]@);
            lines.push(make_plain_line(text));
            i = i + 1;
        }
        assert(lines.deep_view() =~= listing_lines(items.deep_view()));
        lines
    }

    /// Renders plain text, wrapped to the terminal's width.
    pub fn text(&self, message: &str, terminal_width: Option<usize>) -> (lines: Vec<Line>)
        ensures
            lines.deep_view() == text_lines(message@, terminal_width),
    {
        let width: usize = match terminal_width {
            Some(width) => if width > 0 {
                width - 1
            } else {
                0
            },
            None => 119,
        };
        let indent = " ";
        proof {
            reveal_strlit(" ");
            assert(indent@ =~= seq![' ']);
        }
        make_plain_lines(wrap(message, width, indent, indent))
    }

    /// Lays out a table: a border, the header row, a border, the rows,
    /// and a border, each line as the spans to write before a line feed.
    pub fn table(&self, headers: Vec<&str>, rows: Vec<Vec<&str>>) -> (lines: Vec<Vec<Span>>)
        ensures
            lines.deep_view() == table_lines(table_of(headers.deep_view(), rows.deep_view())),
    {
        let table = Table::new(headers, rows);
        table.print_table()
    }

    /// Decides a yes/no prompt on the input as it was typed: the default
    /// where nothing was typed, else whether the input is `yes` or `y`, in
    /// any case of letters. Spaces count: an input of spaces is a no.
    pub fn confirm(&self, input: &str, default: bool) -> (answer: bool)
        ensures
            answer == confirm_answer(input@, default),
    {
        confirm_decide(input, default)
    }

    /// Settles an answer to a free prompt on the verdict of its validator
    /// (`Ok` where there is none): the answer stands, or the validator's
    /// message is rendered as an error block and the prompt is shown again.
    pub fn ask(
        &self,
        answer: String,
        verdict: Result<(), String>,
        terminal_width: Option<usize>,
    ) -> (step: AskStep)
        ensures
            step@ == (match verdict {
                Ok(_) => AskStepView::Accepted(answer@),
                Err(message) => AskStepView::Rejected(
                    block_lines(seq![message@], error_options(), self.width_on(terminal_width)),
                ),
            }),
    {
        match verdict {
            Ok(_) => AskStep::Accepted(answer),
            Err(message) => AskStep::Rejected(
                self.error(Messages::Single(message), terminal_width),
            ),
        }
    }

    /// Runs a choice prompt over `choices` on the keys that were pressed,
    /// up to the first that commits or cancels.
    pub fn choice(
        &self,
        choices: &[&str],
        default: Option<&str>,
        keys: &[Key],
    ) -> (outcome: ChoiceOutcome)
        ensures
            outcome@ == outcome_of(
                choice_start(entries_of(choices.deep_view()), default.deep_view()),
                keys@,
            ),
    {
        let mut state = Choice::new(choices, default);
        state.run(keys)
    }
}

} // verus!
