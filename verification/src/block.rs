//! The block renderer: a message, one paragraph or several, wrapped to a
//! width, indented behind a prefix and a label, padded to full-width lines
//! and framed by padding and blank lines.
//!
//! Rendering has two steps. The first wraps each paragraph and measures
//! every line. The second, [`assemble`], makes the block out of the measured
//! lines; it is stated over plain values.

use crate::block_options::{BlockOptions, BlockOptionsView};
use crate::line::{blank_line, Line, LineEnding, LineKind, LineView};
use crate::messages::Messages;
use crate::style_options::StyleOptions;
use crate::text::uppercase;
use crate::wrapping::{
    columns, display_width, fill, filled, line_columns, measure, measure_all, measured,
    measured_all, padded, padded_is_full_width, wrap, wrapped, Measured, MeasuredView,
};
use vstd::prelude::*;
use vstd::string::*;

verus! {

/// The widest a block is drawn, whatever the terminal's width.
pub const MAX_WRAP_WIDTH: usize = 120;

/// The width at which text is wrapped: the terminal's width, or 120 where
/// it is not known, and at most 120; one column less where the last column
/// is kept free.
pub open spec fn wrap_width_of(terminal_width: Option<usize>, reserve_last_column: bool) -> nat {
    let available: nat = match terminal_width {
        Some(width) => if width > MAX_WRAP_WIDTH {
            MAX_WRAP_WIDTH as nat
        } else {
            width as nat
        },
        None => MAX_WRAP_WIDTH as nat,
    };
    if reserve_last_column && available > 0 {
        (available - 1) as nat
    } else {
        available
    }
}

/// Computes the width at which text is wrapped.
pub fn wrap_width(terminal_width: Option<usize>, reserve_last_column: bool) -> (width: usize)
    ensures
        width == wrap_width_of(terminal_width, reserve_last_column),
{
    let available: usize = match terminal_width {
        Some(width) => if width > MAX_WRAP_WIDTH {
            MAX_WRAP_WIDTH
        } else {
            width
        },
        None => MAX_WRAP_WIDTH,
    };
    if reserve_last_column && available > 0 {
        available - 1
    } else {
        available
    }
}

/// A prefix followed by a label between `[` and `] `, or the prefix alone
/// where there is no label.
pub open spec fn tagged(prefix: Seq<char>, label: Option<Seq<char>>) -> Seq<char> {
    match label {
        Some(name) => prefix + seq!['['] + name + seq![']', ' '],
        None => prefix,
    }
}

/// Puts a label in brackets after a prefix.
pub fn tag(prefix: &str, label: Option<&str>) -> (indent: String)
    ensures
        indent@ == tagged(prefix@, label.deep_view()),
{
    let mut indent = String::from_str(prefix);
    match label {
        Some(name) => {
            indent.push('[');
            indent.append(name);
            indent.push(']');
            indent.push(' ');
            assert(indent@ =~= tagged(prefix@, label.deep_view()));
        },
        None => {},
    }
    indent
}

/// A full-width line of the prefix and spaces, under a style and ended by a
/// carriage return and a line feed. Colours are reset after it where there
/// is a style.
pub open spec fn padding_line(
    prefix: MeasuredView,
    style: Option<StyleOptions>,
    width: nat,
    kind: LineKind,
) -> LineView {
    LineView {
        kind,
        text: filled(prefix, width),
        style,
        reset: style is Some,
        ending: LineEnding::CarriageReturnNewline,
    }
}

/// A line of the message: the wrapped line with spaces up to the width,
/// under a style; colours are reset after it in every case.
pub open spec fn body_line(
    line: MeasuredView,
    style: Option<StyleOptions>,
    width: nat,
) -> LineView {
    LineView {
        kind: LineKind::Body,
        text: filled(line, width),
        style,
        reset: true,
        ending: LineEnding::Newline,
    }
}

/// The wrapped lines of a paragraph as lines of the message.
pub open spec fn body_lines(
    lines: Seq<MeasuredView>,
    style: Option<StyleOptions>,
    width: nat,
) -> Seq<LineView> {
    Seq::new(lines.len(), |k: int| body_line(lines[k], style, width))
}

/// The lines of paragraph `index`: a separator line before every paragraph
/// but the first, then the wrapped lines.
pub open spec fn paragraph_lines(
    paragraphs: Seq<Seq<MeasuredView>>,
    index: int,
    prefix: MeasuredView,
    style: Option<StyleOptions>,
    width: nat,
) -> Seq<LineView> {
    let separator = if index > 0 {
        seq![padding_line(prefix, style, width, LineKind::Separator)]
    } else {
        Seq::empty()
    };
    separator + body_lines(paragraphs[index], style, width)
}

/// The lines of the first `count` paragraphs.
pub open spec fn message_lines(
    paragraphs: Seq<Seq<MeasuredView>>,
    count: nat,
    prefix: MeasuredView,
    style: Option<StyleOptions>,
    width: nat,
) -> Seq<LineView>
    decreases count,
{
    if count == 0 {
        Seq::empty()
    } else {
        message_lines(paragraphs, (count - 1) as nat, prefix, style, width) + paragraph_lines(
            paragraphs,
            count - 1,
            prefix,
            style,
            width,
        )
    }
}

/// The padding line above and below the message, where the block is
/// padded.
pub open spec fn frame(
    prefix: MeasuredView,
    style: Option<StyleOptions>,
    padding: bool,
    width: nat,
) -> Seq<LineView> {
    if padding {
        seq![padding_line(prefix, style, width, LineKind::Padding)]
    } else {
        Seq::empty()
    }
}

/// A whole block made of wrapped and measured paragraphs: a blank line,
/// the padding line if any, the paragraphs with a separator between each
/// two, the padding line again, and a blank line.
pub open spec fn assembled(
    paragraphs: Seq<Seq<MeasuredView>>,
    prefix: MeasuredView,
    style: Option<StyleOptions>,
    padding: bool,
    width: nat,
) -> Seq<LineView> {
    seq![blank_line()] + frame(prefix, style, padding, width) + message_lines(
        paragraphs,
        paragraphs.len(),
        prefix,
        style,
        width,
    ) + frame(prefix, style, padding, width) + seq![blank_line()]
}

/// Makes a padding line of the given kind.
pub fn make_padding_line(
    prefix: &Measured,
    style: Option<StyleOptions>,
    width: usize,
    kind: LineKind,
) -> (line: Line)
    ensures
        line@ == padding_line(prefix@, style, width as nat, kind),
{
    Line {
        kind,
        text: fill(prefix, width),
        style,
        reset: style.is_some(),
        ending: LineEnding::CarriageReturnNewline,
    }
}

/// Makes a line of the message from a wrapped line.
pub fn make_body_line(line: &Measured, style: Option<StyleOptions>, width: usize) -> (made: Line)
    ensures
        made@ == body_line(line@, style, width as nat),
{
    Line {
        kind: LineKind::Body,
        text: fill(line, width),
        style,
        reset: true,
        ending: LineEnding::Newline,
    }
}

/// Makes a block of `width` columns out of wrapped and measured
/// paragraphs.
pub fn assemble(
    paragraphs: &Vec<Vec<Measured>>,
    prefix: &Measured,
    style: Option<StyleOptions>,
    padding: bool,
    width: usize,
) -> (lines: Vec<Line>)
    ensures
        lines.deep_view() == assembled(
            paragraphs.deep_view(),
            prefix@,
            style,
            padding,
            width as nat,
        ),
{
    let ghost all = paragraphs.deep_view();
    let mut lines: Vec<Line> = Vec::new();
    lines.push(Line::blank());
    if padding {
        lines.push(make_padding_line(prefix, style, width, LineKind::Padding));
    }
    let ghost head = seq![blank_line()] + frame(prefix@, style, padding, width as nat);
    assert(lines.deep_view() =~= head + message_lines(all, 0, prefix@, style, width as nat));
    let mut i: usize = 0;
    while i < paragraphs.len()
        invariant
            i <= paragraphs.len(),
            all == paragraphs.deep_view(),
            lines.deep_view() == head + message_lines(all, i as nat, prefix@, style, width as nat),
        decreases paragraphs.len() - i,
    {
        let ghost before = lines.deep_view();
        if i > 0 {
            lines.push(make_padding_line(prefix, style, width, LineKind::Separator));
        }
        let ghost separator = if i > 0 {
            seq![padding_line(prefix@, style, width as nat, LineKind::Separator)]
        } else {
            Seq::empty()
        };
        assert(lines.deep_view() =~= before + separator);
        let paragraph = &paragraphs[i];
        let ghost texts = all[i as int];
        assert(texts == paragraph.deep_view());
        let mut j: usize = 0;
        assert(lines.deep_view() =~= before + separator + body_lines(
            texts.take(0),
            style,
            width as nat,
        ));
        while j < paragraph.len()
            invariant
                j <= paragraph.len(),
                texts == paragraph.deep_view(),
                lines.deep_view() == before + separator + body_lines(
                    texts.take(j as int),
                    style,
                    width as nat,
                ),
            decreases paragraph.len() - j,
        {
            let ghost so_far = lines.deep_view();
            let line = make_body_line(&paragraph[j], style, width);
            assert(texts[j as int] == paragraph[j as int]@);
            lines.push(line);
            assert(lines.deep_view() =~= so_far.push(line@));
            j = j + 1;
            assert(lines.deep_view() =~= before + separator + body_lines(
                texts.take(j as int),
                style,
                width as nat,
            ));
        }
        assert(texts.take(j as int) =~= texts);
        i = i + 1;
        assert(lines.deep_view() =~= head + message_lines(
            all,
            i as nat,
            prefix@,
            style,
            width as nat,
        ));
    }
    let ghost body = lines.deep_view();
    if padding {
        lines.push(make_padding_line(prefix, style, width, LineKind::Padding));
    }
    assert(lines.deep_view() =~= body + frame(prefix@, style, padding, width as nat));
    lines.push(Line::blank());
    assert(lines.deep_view() =~= assembled(all, prefix@, style, padding, width as nat));
    lines
}

/// How many of `lines` are of the given kind.
pub open spec fn count_kind(lines: Seq<LineView>, kind: LineKind) -> nat
    decreases lines.len(),
{
    if lines.len() == 0 {
        0
    } else {
        count_kind(lines.drop_last(), kind) + if lines.last().kind == kind {
            1nat
        } else {
            0nat
        }
    }
}

/// The count of a kind in two runs of lines, one after the other, is the
/// sum of the two counts.
pub proof fn count_kind_of_concatenation(
    first: Seq<LineView>,
    second: Seq<LineView>,
    kind: LineKind,
)
    ensures
        count_kind(first + second, kind) == count_kind(first, kind) + count_kind(second, kind),
    decreases second.len(),
{
    if second.len() == 0 {
        assert(first + second =~= first);
    } else {
        assert((first + second).drop_last() =~= first + second.drop_last());
        count_kind_of_concatenation(first, second.drop_last(), kind);
    }
}

/// A single line counts once for its own kind and not for any other.
pub proof fn count_kind_of_one(line: LineView, kind: LineKind)
    ensures
        count_kind(seq![line], kind) == if line.kind == kind {
            1nat
        } else {
            0nat
        },
        count_kind(Seq::empty(), kind) == 0,
{
    assert(seq![line].drop_last() =~= Seq::<LineView>::empty());
    assert(count_kind(Seq::empty(), kind) == 0);
}

/// Wrapped lines become lines of kind `Body`, as many as there were.
pub proof fn body_lines_are_body(
    lines: Seq<MeasuredView>,
    style: Option<StyleOptions>,
    width: nat,
    kind: LineKind,
)
    ensures
        count_kind(body_lines(lines, style, width), kind) == if kind == LineKind::Body {
            lines.len()
        } else {
            0
        },
    decreases lines.len(),
{
    if lines.len() > 0 {
        assert(body_lines(lines, style, width).drop_last() =~= body_lines(
            lines.drop_last(),
            style,
            width,
        ));
        body_lines_are_body(lines.drop_last(), style, width, kind);
    }
}

/// The number of wrapped lines in the first `count` paragraphs.
pub open spec fn wrapped_line_count(paragraphs: Seq<Seq<MeasuredView>>, count: nat) -> nat
    decreases count,
{
    if count == 0 {
        0
    } else {
        wrapped_line_count(paragraphs, (count - 1) as nat) + paragraphs[count - 1].len()
    }
}

/// How many lines of a kind the first `count` paragraphs hold: `count - 1`
/// separator lines, one body line for each wrapped line, and no line of
/// another kind.
pub open spec fn message_kind_count(
    paragraphs: Seq<Seq<MeasuredView>>,
    count: nat,
    kind: LineKind,
) -> nat {
    match kind {
        LineKind::Separator => if count == 0 {
            0
        } else {
            (count - 1) as nat
        },
        LineKind::Body => wrapped_line_count(paragraphs, count),
        _ => 0,
    }
}

/// The lines of the first `count` paragraphs, counted by kind.
pub proof fn message_lines_by_kind(
    paragraphs: Seq<Seq<MeasuredView>>,
    count: nat,
    prefix: MeasuredView,
    style: Option<StyleOptions>,
    width: nat,
    kind: LineKind,
)
    ensures
        count_kind(message_lines(paragraphs, count, prefix, style, width), kind)
            == message_kind_count(paragraphs, count, kind),
    decreases count,
{
    if count > 0 {
        let earlier = message_lines(paragraphs, (count - 1) as nat, prefix, style, width);
        let index = count - 1;
        let separator = if index > 0 {
            seq![padding_line(prefix, style, width, LineKind::Separator)]
        } else {
            Seq::empty()
        };
        let body = body_lines(paragraphs[index], style, width);
        message_lines_by_kind(paragraphs, (count - 1) as nat, prefix, style, width, kind);
        count_kind_of_concatenation(separator, body, kind);
        count_kind_of_concatenation(earlier, separator + body, kind);
        count_kind_of_one(padding_line(prefix, style, width, LineKind::Separator), kind);
        body_lines_are_body(paragraphs[index], style, width, kind);
        assert(message_lines(paragraphs, count, prefix, style, width) == earlier + (separator
            + body));
    }
}

/// The lines of a block of one kind are those of its message, and one more
/// for each of its two blank lines and of its padding lines if the kind is
/// theirs.
proof fn assembled_kind_count(
    paragraphs: Seq<Seq<MeasuredView>>,
    prefix: MeasuredView,
    style: Option<StyleOptions>,
    padding: bool,
    width: nat,
    kind: LineKind,
)
    ensures
        count_kind(assembled(paragraphs, prefix, style, padding, width), kind)
            == message_kind_count(paragraphs, paragraphs.len(), kind) + (if kind
            == LineKind::Blank {
            2nat
        } else {
            0nat
        }) + (if padding && kind == LineKind::Padding {
            2nat
        } else {
            0nat
        }),
{
    let blank = seq![blank_line()];
    let edge = frame(prefix, style, padding, width);
    let message = message_lines(paragraphs, paragraphs.len(), prefix, style, width);
    message_lines_by_kind(paragraphs, paragraphs.len(), prefix, style, width, kind);
    count_kind_of_one(blank_line(), kind);
    count_kind_of_one(padding_line(prefix, style, width, LineKind::Padding), kind);
    count_kind_of_concatenation(blank, edge, kind);
    count_kind_of_concatenation(blank + edge, message, kind);
    count_kind_of_concatenation(blank + edge + message, edge, kind);
    count_kind_of_concatenation(blank + edge + message + edge, blank, kind);
}

/// A block of `n` paragraphs holds exactly `n - 1` separator lines (none
/// where it has no paragraph), beside the two padding lines of a padded
/// block, its two blank lines and one body line for each wrapped line.
pub proof fn assembled_by_kind(
    paragraphs: Seq<Seq<MeasuredView>>,
    prefix: MeasuredView,
    style: Option<StyleOptions>,
    padding: bool,
    width: nat,
)
    ensures
        count_kind(assembled(paragraphs, prefix, style, padding, width), LineKind::Separator)
            == if paragraphs.len() == 0 {
            0
        } else {
            paragraphs.len() - 1
        },
        count_kind(assembled(paragraphs, prefix, style, padding, width), LineKind::Padding)
            == if padding {
            2nat
        } else {
            0nat
        },
        count_kind(assembled(paragraphs, prefix, style, padding, width), LineKind::Blank) == 2,
        count_kind(assembled(paragraphs, prefix, style, padding, width), LineKind::Body)
            == wrapped_line_count(paragraphs, paragraphs.len()),
        count_kind(assembled(paragraphs, prefix, style, padding, width), LineKind::Underline)
            == 0,
{
    assembled_kind_count(paragraphs, prefix, style, padding, width, LineKind::Separator);
    assembled_kind_count(paragraphs, prefix, style, padding, width, LineKind::Padding);
    assembled_kind_count(paragraphs, prefix, style, padding, width, LineKind::Blank);
    assembled_kind_count(paragraphs, prefix, style, padding, width, LineKind::Body);
    assembled_kind_count(paragraphs, prefix, style, padding, width, LineKind::Underline);
}

/// Among the lines of the first `count` paragraphs, every line of kind
/// `Body` is made from a wrapped line of one of them.
pub proof fn message_body_lines_are_wrapped(
    paragraphs: Seq<Seq<MeasuredView>>,
    count: nat,
    prefix: MeasuredView,
    style: Option<StyleOptions>,
    width: nat,
    position: int,
)
    requires
        0 <= position < message_lines(paragraphs, count, prefix, style, width).len(),
        message_lines(paragraphs, count, prefix, style, width)[position].kind == LineKind::Body,
    ensures
        exists|index: int, at: int|
            0 <= index < count && 0 <= at < paragraphs[index].len() && message_lines(
                paragraphs,
                count,
                prefix,
                style,
                width,
            )[position] == body_line(#[trigger] paragraphs[index][at], style, width),
    decreases count,
{
    if count > 0 {
        let earlier = message_lines(paragraphs, (count - 1) as nat, prefix, style, width);
        let index = count - 1;
        let separator = if index > 0 {
            seq![padding_line(prefix, style, width, LineKind::Separator)]
        } else {
            Seq::empty()
        };
        let line = message_lines(paragraphs, count, prefix, style, width)[position];
        if position < earlier.len() {
            message_body_lines_are_wrapped(
                paragraphs,
                (count - 1) as nat,
                prefix,
                style,
                width,
                position,
            );
            let (i, at) = choose|i: int, at: int|
                0 <= i < count - 1 && 0 <= at < paragraphs[i].len() && line == body_line(
                    #[trigger] paragraphs[i][at],
                    style,
                    width,
                );
            assert(0 <= i < count && line == body_line(paragraphs[i][at], style, width));
        } else {
            let at = position - earlier.len() - separator.len();
            assert(at >= 0);
            assert(0 <= index < count && line == body_line(paragraphs[index][at], style, width));
        }
    }
}

/// Every line of kind `Body` in a block is one of the wrapped lines,
/// filled with spaces, under the style of the block and with a colour reset
/// after it.
pub proof fn assembled_body_lines_are_filled(
    paragraphs: Seq<Seq<MeasuredView>>,
    prefix: MeasuredView,
    style: Option<StyleOptions>,
    padding: bool,
    width: nat,
    position: int,
)
    requires
        0 <= position < assembled(paragraphs, prefix, style, padding, width).len(),
        assembled(paragraphs, prefix, style, padding, width)[position].kind == LineKind::Body,
    ensures
        assembled(paragraphs, prefix, style, padding, width)[position].reset,
        assembled(paragraphs, prefix, style, padding, width)[position].style == style,
        exists|index: int, at: int|
            0 <= index < paragraphs.len() && 0 <= at < paragraphs[index].len() && assembled(
                paragraphs,
                prefix,
                style,
                padding,
                width,
            )[position].text == filled(#[trigger] paragraphs[index][at], width),
{
    let head = seq![blank_line()] + frame(prefix, style, padding, width);
    let message = message_lines(paragraphs, paragraphs.len(), prefix, style, width);
    let line = assembled(paragraphs, prefix, style, padding, width)[position];
    let inner = position - head.len();
    assert(0 <= inner < message.len() && line == message[inner]);
    message_body_lines_are_wrapped(paragraphs, paragraphs.len(), prefix, style, width, inner);
    let (index, at) = choose|index: int, at: int|
        0 <= index < paragraphs.len() && 0 <= at < paragraphs[index].len() && line == body_line(
            #[trigger] paragraphs[index][at],
            style,
            width,
        );
    assert(line.text == filled(paragraphs[index][at], width));
}

/// Assembling keeps no state: two blocks made of the same paragraphs,
/// prefix, style, padding and width are the same, line for line.
pub proof fn assembling_is_repeatable(
    first: Seq<LineView>,
    second: Seq<LineView>,
    paragraphs: Seq<Seq<MeasuredView>>,
    prefix: MeasuredView,
    style: Option<StyleOptions>,
    padding: bool,
    width: nat,
)
    requires
        first == assembled(paragraphs, prefix, style, padding, width),
        second == assembled(paragraphs, prefix, style, padding, width),
    ensures
        first == second,
{
}

/// The text that starts every line of a block: the prefix, or one space
/// where the prefix is empty.
pub open spec fn effective_prefix(options: BlockOptionsView) -> Seq<char> {
    if options.prefix.len() == 0 {
        seq![' ']
    } else {
        options.prefix
    }
}

/// The label that the block shows, in upper case; none where it has no
/// label or an empty one.
pub open spec fn label_of(options: BlockOptionsView) -> Option<Seq<char>> {
    match options.block_type {
        Some(name) => if name.len() > 0 {
            Some(uppercase(name))
        } else {
            None
        },
        None => None,
    }
}

/// The indent of the first line of a block: the prefix and the label.
pub open spec fn initial_indent(options: BlockOptionsView) -> Seq<char> {
    tagged(effective_prefix(options), label_of(options))
}

/// The indent of every other line: the prefix, then spaces up to the width
/// of the first line's indent.
pub open spec fn subsequent_indent(options: BlockOptionsView) -> Seq<char> {
    filled(measured(effective_prefix(options)), columns(initial_indent(options)))
}

/// The indent of the first line of paragraph `index`: only the first
/// paragraph shows the label.
pub open spec fn first_indent(options: BlockOptionsView, index: int) -> Seq<char> {
    if index == 0 {
        initial_indent(options)
    } else {
        subsequent_indent(options)
    }
}

/// The lines of a paragraph that was wrapped into `lines`. A paragraph is
/// never without a line: where the text was wrapped into none, its indent
/// alone is its one line.
pub open spec fn lines_or_indent(lines: Seq<Seq<char>>, indent: Seq<char>) -> Seq<Seq<char>> {
    if lines.len() == 0 {
        seq![indent]
    } else {
        lines
    }
}

/// The wrapped lines of paragraph `index` of a message.
pub open spec fn paragraph(
    segments: Seq<Seq<char>>,
    index: int,
    options: BlockOptionsView,
    width: nat,
) -> Seq<Seq<char>> {
    lines_or_indent(
        wrapped(
            segments[index],
            width,
            first_indent(options, index),
            subsequent_indent(options),
        ),
        first_indent(options, index),
    )
}

/// Returns the wrapped lines of a paragraph, or its indent as its one line
/// where there is none.
pub fn at_least_one_line(lines: Vec<String>, indent: &str) -> (kept: Vec<String>)
    ensures
        kept.deep_view() == lines_or_indent(lines.deep_view(), indent@),
{
    if lines.len() == 0 {
        let mut kept = lines;
        kept.push(String::from_str(indent));
        assert(kept.deep_view() =~= seq![indent@]);
        kept
    } else {
        lines
    }
}

/// The paragraphs of a message, wrapped and measured.
pub open spec fn paragraphs_of(
    segments: Seq<Seq<char>>,
    options: BlockOptionsView,
    width: nat,
) -> Seq<Seq<MeasuredView>> {
    Seq::new(segments.len(), |i: int| measured_all(paragraph(segments, i, options, width)))
}

/// The block of a message under its options: its paragraphs, wrapped and
/// measured, assembled behind the prefix.
pub open spec fn block_lines(
    segments: Seq<Seq<char>>,
    options: BlockOptionsView,
    width: nat,
) -> Seq<LineView> {
    assembled(
        paragraphs_of(segments, options, width),
        measured(effective_prefix(options)),
        options.style,
        options.padding,
        width,
    )
}

/// Returns the prefix of a block, a single space where it has none.
pub fn prefix_of(options: &BlockOptions) -> (prefix: String)
    ensures
        prefix@ == effective_prefix(options@),
{
    if options.prefix.as_str().is_empty() {
        let mut prefix = String::new();
        prefix.push(' ');
        assert(prefix@ =~= seq![' ']);
        prefix
    } else {
        options.prefix.clone()
    }
}

/// Returns the indent of the first line of a block.
pub fn initial_indent_of(options: &BlockOptions) -> (indent: String)
    ensures
        indent@ == initial_indent(options@),
{
    let prefix = prefix_of(options);
    match &options.block_type {
        Some(name) => {
            if name.as_str().is_empty() {
                tag(prefix.as_str(), None)
            } else {
                let label = name.as_str().to_uppercase();
                tag(prefix.as_str(), Some(label.as_str()))
            }
        },
        None => tag(prefix.as_str(), None),
    }
}

/// Returns the indent of every line of a block but the first.
pub fn subsequent_indent_of(options: &BlockOptions) -> (indent: String)
    ensures
        indent@ == subsequent_indent(options@),
{
    let initial = initial_indent_of(options);
    fill(&measure(prefix_of(options)), display_width(initial.as_str()))
}

/// Renders a message as a block of `width` columns: wraps and measures its
/// paragraphs, and assembles the block.
pub fn render_block(messages: &Messages, options: &BlockOptions, width: usize) -> (lines: Vec<Line>)
    ensures
        lines.deep_view() == block_lines(messages.segments(), options@, width as nat),
{
    let ghost segments = messages.segments();
    let initial = initial_indent_of(options);
    let subsequent = subsequent_indent_of(options);
    let mut paragraphs: Vec<Vec<Measured>> = Vec::new();
    let count = messages.len();
    let mut i: usize = 0;
    while i < count
        invariant
            i <= count,
            count == segments.len(),
            segments == messages.segments(),
            initial@ == initial_indent(options@),
            subsequent@ == subsequent_indent(options@),
            paragraphs.len() == i,
            forall|k: int|
                0 <= k < i ==> (#[trigger] paragraphs[k]).deep_view() == measured_all(
                    paragraph(segments, k, options@, width as nat),
                ),
        decreases count - i,
    {
        let first = if i == 0 {
            initial.as_str()
        } else {
            subsequent.as_str()
        };
        let texts = at_least_one_line(
            wrap(messages.segment(i).as_str(), width, first, subsequent.as_str()),
            first,
        );
        paragraphs.push(measure_all(&texts));
        i = i + 1;
    }
    assert(paragraphs.deep_view() =~= paragraphs_of(segments, options@, width as nat));
    assemble(&paragraphs, &measure(prefix_of(options)), options.style, options.padding, width)
}

/// Whether a wrapped line fits a block of `width` columns: it takes no more
/// than `width` columns, the spaces that end it counting for one each.
pub open spec fn fits(text: Seq<char>, width: nat) -> bool {
    columns(text) <= width && line_columns(text) == columns(text)
}

/// Every paragraph shows: each paragraph of a message has one line at
/// least, an empty paragraph too, so that a block has a body line for each
/// of its paragraphs at least.
pub proof fn every_paragraph_has_a_line(
    segments: Seq<Seq<char>>,
    count: nat,
    options: BlockOptionsView,
    width: nat,
)
    requires
        count <= segments.len(),
    ensures
        wrapped_line_count(paragraphs_of(segments, options, width), count) >= count,
        forall|index: int| #[trigger] paragraph(segments, index, options, width).len() >= 1,
    decreases count,
{
    if count > 0 {
        every_paragraph_has_a_line(segments, (count - 1) as nat, options, width);
    }
}

/// A block of `n` paragraphs holds exactly `n - 1` separator lines (none
/// where it has no paragraph), beside the two padding lines of a padded
/// block and its two blank lines.
pub proof fn block_lines_by_kind(segments: Seq<Seq<char>>, options: BlockOptionsView, width: nat)
    ensures
        count_kind(block_lines(segments, options, width), LineKind::Separator) == if segments.len()
            == 0 {
            0
        } else {
            segments.len() - 1
        },
        count_kind(block_lines(segments, options, width), LineKind::Padding) == if options.padding {
            2nat
        } else {
            0nat
        },
        count_kind(block_lines(segments, options, width), LineKind::Blank) == 2,
        count_kind(block_lines(segments, options, width), LineKind::Body) >= segments.len(),
{
    assembled_by_kind(
        paragraphs_of(segments, options, width),
        measured(effective_prefix(options)),
        options.style,
        options.padding,
        width,
    );
    every_paragraph_has_a_line(segments, segments.len(), options, width);
}

/// Every body line that is emitted has exactly `width` columns, where the
/// text was wrapped to no more. In a block, each line of kind `Body` is a
/// wrapped line of one of the paragraphs, padded, with a colour reset after
/// it; where that wrapped line fits the width, the line takes exactly
/// `width` columns. (A line that is wrapped wider than `width`, as where
/// the first indent alone fills the width, stays as wide as it came.)
pub proof fn emitted_body_lines_are_full_width(
    segments: Seq<Seq<char>>,
    options: BlockOptionsView,
    width: nat,
    position: int,
)
    requires
        0 <= position < block_lines(segments, options, width).len(),
        block_lines(segments, options, width)[position].kind == LineKind::Body,
    ensures
        block_lines(segments, options, width)[position].reset,
        exists|index: int, at: int|
            0 <= index < segments.len() && 0 <= at < paragraph(
                segments,
                index,
                options,
                width,
            ).len() && {
                let text = #[trigger] paragraph(segments, index, options, width)[at];
                &&& block_lines(segments, options, width)[position].text == padded(text, width)
                &&& fits(text, width) ==> line_columns(
                    block_lines(segments, options, width)[position].text,
                ) == width
            },
{
    let paragraphs = paragraphs_of(segments, options, width);
    let prefix = measured(effective_prefix(options));
    let line = block_lines(segments, options, width)[position];
    assembled_body_lines_are_filled(
        paragraphs,
        prefix,
        options.style,
        options.padding,
        width,
        position,
    );
    let (index, at) = choose|index: int, at: int|
        0 <= index < paragraphs.len() && 0 <= at < paragraphs[index].len() && line.text == filled(
            #[trigger] paragraphs[index][at],
            width,
        );
    let text = paragraph(segments, index, options, width)[at];
    assert(paragraphs[index][at] == measured(text));
    if fits(text, width) {
        padded_is_full_width(text, width);
    }
}

/// Rendering keeps no state: two blocks rendered from the same message,
/// options and width are the same, line for line.
pub proof fn rendering_is_repeatable(
    first: Seq<LineView>,
    second: Seq<LineView>,
    segments: Seq<Seq<char>>,
    options: BlockOptionsView,
    width: nat,
)
    requires
        first == block_lines(segments, options, width),
        second == block_lines(segments, options, width),
    ensures
        first == second,
{
}

} // verus!
